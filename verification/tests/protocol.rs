use frosty_functions::buffer::{
    decode_len, encode_len, read_buffer, write_bytes, write_prefixed, BufferError,
    BUFFER_MAX_LEN, CONSOLE_LOG_MAX_LEN,
};
use frosty_functions::text::{clip_string, hex_encode, i64_to_string, u64_to_string};

#[test]
fn length_prefix_encodes_little_endian() {
    assert_eq!(decode_len(0x78, 0x56, 0x34, 0x12), 0x12345678);
    assert_eq!(decode_len(0, 0, 0, 0), 0);
    assert_eq!(decode_len(0xff, 0xff, 0xff, 0xff), u32::MAX);
    assert_eq!(encode_len(0x12345678), vec![0x78, 0x56, 0x34, 0x12]);
    assert_eq!(encode_len(3), vec![3, 0, 0, 0]);
}

#[test]
fn buffer_round_trip_returns_the_written_bytes() {
    let mut mem = vec![0u8; 64];
    let data = b"hello".to_vec();
    write_prefixed(&mut mem, 16, &data);
    assert_eq!(&mem[12..16], &[5, 0, 0, 0]);
    assert_eq!(&mem[16..21], b"hello");
    let back = read_buffer(&mem, 16, 1000).unwrap();
    assert_eq!(back, data);
}

#[test]
fn declared_length_over_maximum_is_an_error() {
    let mut mem = vec![0u8; 64];
    let prefix = encode_len(50);
    write_bytes(&mut mem, 12, &prefix);
    assert_eq!(read_buffer(&mem, 16, 10), Err(BufferError::TooLong));
    // With a generous maximum the same declared length runs past the end
    // of memory instead.
    assert_eq!(read_buffer(&mem, 16, 50), Err(BufferError::OutOfBounds));
}

#[test]
fn buffer_past_end_of_memory_is_an_error() {
    let mut mem = vec![0u8; 64];
    let prefix = encode_len(200);
    write_bytes(&mut mem, 56, &prefix);
    assert_eq!(read_buffer(&mem, 60, 1000), Err(BufferError::OutOfBounds));
}

#[test]
fn empty_buffer_round_trips() {
    let mut mem = vec![7u8; 16];
    write_prefixed(&mut mem, 8, &Vec::new());
    assert_eq!(read_buffer(&mem, 8, 0).unwrap(), Vec::<u8>::new());
}

#[test]
fn call_site_maximums_match_the_protocol() {
    assert_eq!(BUFFER_MAX_LEN, 10_000_000);
    assert_eq!(CONSOLE_LOG_MAX_LEN, 10_000);
}

#[test]
fn decimal_rendering_matches_expected_digits() {
    assert_eq!(u64_to_string(0), "0");
    assert_eq!(u64_to_string(7), "7");
    assert_eq!(u64_to_string(12345), "12345");
    assert_eq!(u64_to_string(u64::MAX), "18446744073709551615");
    assert_eq!(i64_to_string(-1), "-1");
    assert_eq!(i64_to_string(i64::MIN), "-9223372036854775808");
    assert_eq!(i64_to_string(42), "42");
}

#[test]
fn hex_encoding_is_lowercase_two_digits_per_byte() {
    assert_eq!(hex_encode(&vec![0xde, 0xad, 0xbe, 0xef]), "deadbeef");
    assert_eq!(hex_encode(&vec![0x00, 0x0f, 0xf0]), "000ff0");
    assert_eq!(hex_encode(&Vec::new()), "");
    // Cross-check against the encoder the shell itself would use.
    assert_eq!(hex_encode(&vec![1, 2, 3]), hex::encode([1u8, 2, 3]));
}

#[test]
fn clipping_keeps_short_strings_and_marks_long_ones() {
    assert_eq!(clip_string("short", 100), "short");
    assert_eq!(clip_string("abcdef", 6), "abcdef");
    assert_eq!(clip_string("abcdefg", 6), "abc...");
    assert_eq!(clip_string("abc", 3), "abc");
    assert_eq!(clip_string("abcd", 3), "...");
}
