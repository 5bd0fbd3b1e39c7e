use rust_md5_updated::md5::hash;
use rust_md5_updated::md5::reader::Md5Reader;
use rust_md5_updated::md5::types::{DigestBuffer, WrappingRotating};
use rust_md5_updated::md5::{build_table, f, g, h, i, initial_md_buffer, perform_rounds};
use rust_md5_updated::util::to_hex_string;

fn test_string_hash(input: &str, expected: &str) {
    let vec = input.as_bytes().to_vec();
    let output = &mut Vec::new();

    hash(&vec, output);

    assert_eq!(to_hex_string(output), expected);
}

fn hex_of(input: &[u8]) -> String {
    let mut output = Vec::new();
    hash(input, &mut output);
    to_hex_string(&output)
}

fn count_blocks(input: &[u8]) -> usize {
    let mut reader = Md5Reader::new(input);
    let mut blocks = 0;
    while reader.next().is_some() {
        blocks += 1;
    }
    blocks
}

#[test]
fn test_spec_testcases() {
    test_string_hash("", "d41d8cd98f00b204e9800998ecf8427e");
    test_string_hash("a", "0cc175b9c0f1b6a831c399e269772661");
    test_string_hash("abc", "900150983cd24fb0d6963f7d28e17f72");
    test_string_hash("message digest", "f96b697d7cb7938d525a2f31aaf161d0");
    test_string_hash("abcdefghijklmnopqrstuvwxyz",
                     "c3fcd3d76192e4007dfb496cca67e13b");
    test_string_hash("ABCDEFGHIJKLMNOPQRSTUVWXYZabcdefghijklmnopqrstuvwxyz0123456789",
                     "d174ab98d277d9f5a5611c2c9f419d9f");
    test_string_hash("1234567890\
                      1234567890\
                      1234567890\
                      1234567890\
                      1234567890\
                      1234567890\
                      1234567890\
                      1234567890",
                     "57edf4a22be3c955ac49da2e2107b67a");
}

#[test]
fn digest_matches_rfc1321_around_block_edges() {
    assert_eq!(hex_of(&[b'a'; 56]), "3b0c8ac703f828b04c6c197006d17218");
    assert_eq!(hex_of(&[b'a'; 63]), "b06521f39153d618550606be297466d5");
    assert_eq!(hex_of(&[b'a'; 64]), "014842d480b571495a4a0363793f7367");
    assert_eq!(hex_of(&[b'a'; 1000]), "cabe45dcc9ae5b66ba86600cca6b8ba8");
}

#[test]
fn fifty_five_bytes_fit_one_block() {
    // 55 bytes modulo 64: the 0x80 byte is followed directly by the length.
    assert_eq!(count_blocks(&[b'a'; 55]), 1);
    assert_eq!(hex_of(&[b'a'; 55]), "ef1772b6dff9a122358552954ad0df65");
    assert_eq!(count_blocks(&[b'a'; 119]), 2);
    assert_eq!(hex_of(&[b'a'; 119]), "8a7bd0732ed6a28ce75f6dabc90e1613");
}

#[test]
fn reader_block_of_fifty_five_zero_bytes() {
    let input = [0u8; 55];
    let mut reader = Md5Reader::new(&input);
    let block = reader.next().unwrap();
    assert_eq!(
        block,
        [0, 0, 0, 0, 0, 0, 0, 0, 0, 0, 0, 0, 0, 0x8000_0000, 0x1b8, 0]
    );
    assert!(reader.next().is_none());
}

#[test]
fn hash_appends_sixteen_bytes() {
    let mut output = vec![7u8, 9u8];
    hash(b"abc", &mut output);
    assert_eq!(output.len(), 18);
    assert_eq!(&output[..2], &[7u8, 9u8]);
    assert_eq!(to_hex_string(&output[2..]), "900150983cd24fb0d6963f7d28e17f72");
    assert_eq!(output[2], 0x90);
    assert_eq!(output[17], 0x72);
}

#[test]
fn reader_block_counts() {
    assert_eq!(count_blocks(b""), 1);
    assert_eq!(count_blocks(&[0u8; 54]), 1);
    assert_eq!(count_blocks(&[0u8; 56]), 2);
    assert_eq!(count_blocks(&[0u8; 64]), 2);
    assert_eq!(count_blocks(&[0u8; 55]), 1);
    assert_eq!(count_blocks(&[0u8; 118]), 2);
    assert_eq!(count_blocks(&[0u8; 119]), 2);
    assert_eq!(count_blocks(&[0u8; 120]), 3);
    for n in 0..300usize {
        assert_eq!(count_blocks(&vec![1u8; n]), (n + 8) / 64 + 1);
    }
}

#[test]
fn reader_block_of_abc() {
    let input = b"abc";
    let mut reader = Md5Reader::new(input);
    let block = reader.next().unwrap();
    assert_eq!(block[0], 0x8063_6261);
    for k in 1..14 {
        assert_eq!(block[k], 0);
    }
    assert_eq!(block[14], 24);
    assert_eq!(block[15], 0);
    assert!(reader.next().is_none());
    assert!(reader.next().is_none());
}

#[test]
fn reader_length_field_of_two_blocks() {
    let input = [0xffu8; 70];
    let mut reader = Md5Reader::new(&input);
    let first = reader.next().unwrap();
    assert!(first.iter().all(|w| *w == 0xffff_ffff));
    let second = reader.next().unwrap();
    assert_eq!(second[0], 0xffff_ffff);
    assert_eq!(second[1], 0x0080_ffff);
    assert_eq!(second[14], 560);
    assert_eq!(second[15], 0);
    assert!(reader.next().is_none());
}

#[test]
fn initial_buffer_values() {
    let buf = initial_md_buffer();
    assert_eq!(buf.a.0, 0x67452301);
    assert_eq!(buf.b.0, 0xefcdab89);
    assert_eq!(buf.c.0, 0x98badcfe);
    assert_eq!(buf.d.0, 0x10325476);
}

#[test]
fn auxiliary_functions() {
    let x = WrappingRotating(0xf0f0_1234);
    let y = WrappingRotating(0xff00_ff00);
    let z = WrappingRotating(0x0ff0_0ff0);
    assert_eq!(f(x, y, z).0, (0xf0f0_1234 & 0xff00_ff00) | (!0xf0f0_1234u32 & 0x0ff0_0ff0));
    assert_eq!(f(x, y, z).0, 0xff00_1fc0);
    assert_eq!(g(x, y, z).0, 0xf0f0_f230);
    assert_eq!(h(x, y, z).0, 0x0000_e2c4);
    assert_eq!(i(x, y, z).0, 0x0fff_0d3f);
}

#[test]
fn build_table_matches_sine_formula() {
    let t = build_table();
    assert_eq!(t.len(), 64);
    for (k, w) in t.iter().enumerate() {
        let i = (k + 1) as f64;
        let expected = (2f64.powi(32) * i.sin().abs()) as u32;
        assert_eq!(w.0, expected);
    }
    assert_eq!(t[0].0, 0xd76aa478);
    assert_eq!(t[63].0, 0xeb86d391);
}

#[test]
fn wrapping_rotating_operators() {
    let a = WrappingRotating(0xffff_fffe);
    assert_eq!((a + WrappingRotating(3)).0, 1);
    assert_eq!((a + 5u32).0, 3);
    assert_eq!((WrappingRotating(0x8000_0001) << 4).0, 0x0000_0018);
    assert_eq!((WrappingRotating(0x1234_5678) << 32).0, 0x1234_5678);
    let mut r = WrappingRotating(0x8000_0001);
    r <<= 1;
    assert_eq!(r.0, 0x0000_0003);
    assert_eq!((!WrappingRotating(0x0f0f_0f0f)).0, 0xf0f0_f0f0);
    assert_eq!((WrappingRotating(0b1100) & WrappingRotating(0b1010)).0, 0b1000);
    assert_eq!((WrappingRotating(0b1100) | WrappingRotating(0b1010)).0, 0b1110);
    assert_eq!((WrappingRotating(0b1100) ^ WrappingRotating(0b1010)).0, 0b0110);
}

#[test]
fn digest_buffer_addition_is_registerwise() {
    let x = DigestBuffer {
        a: WrappingRotating(1),
        b: WrappingRotating(0xffff_ffff),
        c: WrappingRotating(10),
        d: WrappingRotating(0x8000_0000),
    };
    let y = DigestBuffer {
        a: WrappingRotating(2),
        b: WrappingRotating(2),
        c: WrappingRotating(20),
        d: WrappingRotating(0x8000_0000),
    };
    let s = x + y;
    assert_eq!(s.a.0, 3);
    assert_eq!(s.b.0, 1);
    assert_eq!(s.c.0, 30);
    assert_eq!(s.d.0, 0);
}

#[test]
fn perform_rounds_of_empty_message() {
    let empty: [u8; 0] = [];
    let res = perform_rounds(initial_md_buffer(), Md5Reader::new(&empty));
    assert_eq!(res.a.0, 0xd98c1dd4);
    assert_eq!(res.b.0, 0x04b2008f);
    assert_eq!(res.c.0, 0x980980e9);
    assert_eq!(res.d.0, 0x7e42f8ec);
}

#[test]
fn perform_rounds_on_a_used_reader_keeps_the_buffer() {
    let empty: [u8; 0] = [];
    let mut reader = Md5Reader::new(&empty);
    assert!(reader.next().is_some());
    let start = initial_md_buffer();
    let res = perform_rounds(start, reader);
    assert_eq!(res.a.0, 0x67452301);
    assert_eq!(res.d.0, 0x10325476);
}

#[test]
fn hex_string_of_bytes() {
    assert_eq!(to_hex_string(&[]), "");
    assert_eq!(to_hex_string(&[0x00, 0x0f, 0xa0, 0xff, 0x5c]), "000fa0ff5c");
}
