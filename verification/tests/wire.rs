use tringlib::wire::{read_segments, string_to_bytes};

#[test]
fn string_to_bytes_prefixes_the_length() {
    assert_eq!(string_to_bytes("ab".to_string()), vec![0, 0, 0, 2, b'a', b'b']);
}

#[test]
fn string_to_bytes_of_the_empty_text() {
    assert_eq!(string_to_bytes(String::new()), vec![0, 0, 0, 0]);
}

#[test]
fn string_to_bytes_counts_bytes_not_characters() {
    assert_eq!(string_to_bytes("é".to_string()), vec![0, 0, 0, 2, 0xc3, 0xa9]);
}

#[test]
fn read_segments_splits_at_the_lengths() {
    let bytes = vec![0, 0, 0, 1, 7, 0, 0, 0, 0, 0, 0, 0, 2, 8, 9];
    assert_eq!(read_segments(&bytes), Some(vec![vec![7], vec![], vec![8, 9]]));
}

#[test]
fn read_segments_refuses_a_cut_buffer() {
    assert_eq!(read_segments(&[0, 0, 0]), None);
    assert_eq!(read_segments(&[0, 0, 0, 2, 1]), None);
}
