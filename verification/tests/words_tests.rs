use gpu_dispatch::words::{le_bytes_from_words, word_from_le, words_from_le_bytes};

#[test]
fn word_from_le_is_little_endian() {
    assert_eq!(word_from_le(0x78, 0x56, 0x34, 0x12), 0x12345678);
    assert_eq!(word_from_le(0, 0, 0, 0), 0);
    assert_eq!(word_from_le(0xff, 0xff, 0xff, 0xff), 0xffffffff);
}

#[test]
fn words_encode_to_le_bytes() {
    let bytes = le_bytes_from_words(&[0x12345678, 0x03020100]);
    assert_eq!(bytes, vec![0x78, 0x56, 0x34, 0x12, 0x00, 0x01, 0x02, 0x03]);
}

#[test]
fn bytes_decode_to_le_words() {
    let words = words_from_le_bytes(&[0x78, 0x56, 0x34, 0x12, 0x00, 0x01, 0x02, 0x03]);
    assert_eq!(words, vec![0x12345678, 0x03020100]);
    assert_eq!(words_from_le_bytes(&[]), Vec::<u32>::new());
}

#[test]
fn quarter_round_block_survives_the_codec() {
    let state: Vec<u32> = vec![
        0x879531e0, 0xc5ecf37d, 0x516461b1, 0xc9a62f8a, 0x44c20ef3, 0x3390af7f, 0xd9fc690b,
        0x2a5f714c, 0x53372767, 0xb00a5631, 0x974c541a, 0x359e9963, 0x5c971061, 0x3d631689,
        0x2098d9d6, 0x91dbd320,
    ];
    let bytes = le_bytes_from_words(&state);
    assert_eq!(bytes.len(), 64);
    assert_eq!(words_from_le_bytes(&bytes), state);
}

#[test]
fn block_input_survives_the_codec() {
    let block: Vec<u32> = vec![
        0x0, 0x0, 0x0, 0x0, 0x03020100, 0x07060504, 0x0b0a0908, 0x0f0e0d0c, 0x13121110,
        0x17161514, 0x1b1a1918, 0x1f1e1d1c, 0x00000001, 0x09000000, 0x4a000000, 0x00000000,
    ];
    let bytes = le_bytes_from_words(&block);
    assert_eq!(bytes.len(), 64);
    assert_eq!(words_from_le_bytes(&bytes), block);
}
