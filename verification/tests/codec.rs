use clipboard2json::codec::{decode_atoms, decode_text, trim_at_nul};
use clipboard2json::errors::WatchError;

#[test]
fn decode_atoms_reads_little_endian_groups() {
    let bytes: Vec<u8> = vec![
        7, 1, 0, 0, 0, 0, 0, 0, // 263
        0, 0, 1, 0, 0, 0, 0, 0, // 65536
    ];
    assert_eq!(decode_atoms(&bytes), Ok(vec![263, 65536]));
}

#[test]
fn decode_atoms_reads_the_full_width() {
    let bytes: Vec<u8> = vec![0, 0, 0, 0, 0, 0, 0, 1];
    assert_eq!(decode_atoms(&bytes), Ok(vec![1u64 << 56]));
}

#[test]
fn decode_atoms_rejects_a_ragged_payload() {
    let bytes: Vec<u8> = vec![1, 2, 3];
    assert_eq!(decode_atoms(&bytes), Err(WatchError::DecodeError));
}

#[test]
fn decode_atoms_of_nothing_is_nothing() {
    let bytes: Vec<u8> = Vec::new();
    assert_eq!(decode_atoms(&bytes), Ok(Vec::new()));
}

#[test]
fn trim_stops_at_the_first_nul() {
    let bytes: Vec<u8> = b"hi\0there".to_vec();
    assert_eq!(trim_at_nul(&bytes), b"hi".to_vec());
}

#[test]
fn trim_keeps_a_payload_without_nul() {
    let bytes: Vec<u8> = b"whole".to_vec();
    assert_eq!(trim_at_nul(&bytes), b"whole".to_vec());
}

#[test]
fn decode_text_reads_utf8_up_to_the_nul() {
    let bytes: Vec<u8> = b"hello world\0junk".to_vec();
    assert_eq!(decode_text(&bytes), Ok("hello world".to_string()));
}

#[test]
fn decode_text_takes_the_whole_buffer_without_nul() {
    let bytes: Vec<u8> = "grüße".as_bytes().to_vec();
    assert_eq!(decode_text(&bytes), Ok("grüße".to_string()));
}

#[test]
fn decode_text_rejects_bytes_that_are_not_utf8() {
    let bytes: Vec<u8> = vec![0xff, 0xfe, 0x41];
    assert_eq!(decode_text(&bytes), Err(WatchError::DecodeError));
}
