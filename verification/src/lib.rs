//! MD5 message digest (RFC 1321), with its padding reader, compression
//! rounds and digest serialisation verified against a mathematical model.

pub mod md5;
pub mod util;
