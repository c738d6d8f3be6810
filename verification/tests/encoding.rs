use frame_orchestrator::encoding::{bytes_to_words, indices_to_bytes, words_to_bytes};

#[test]
fn words_are_written_least_significant_byte_first() {
    let bytes = words_to_bytes(&[0x0403_0201, 0xDEAD_BEEF]);
    assert_eq!(bytes, vec![0x01, 0x02, 0x03, 0x04, 0xEF, 0xBE, 0xAD, 0xDE]);
}

#[test]
fn no_words_give_no_bytes() {
    assert_eq!(words_to_bytes(&[]), Vec::<u8>::new());
}

#[test]
fn words_match_the_reinterpretation_of_little_endian_memory() {
    let words: Vec<u32> = vec![0, 1, 0x8000_0000, u32::MAX, 0x1234_5678];
    let little: Vec<u32> = words.iter().map(|w| w.to_le()).collect();
    let expected: &[u8] = bytemuck::cast_slice(&little);
    assert_eq!(words_to_bytes(&words), expected.to_vec());
}

#[test]
fn bytes_are_read_back_as_words() {
    let words = bytes_to_words(&[0x01, 0x02, 0x03, 0x04, 0xEF, 0xBE, 0xAD, 0xDE]);
    assert_eq!(words, Some(vec![0x0403_0201, 0xDEAD_BEEF]));
}

#[test]
fn a_broken_word_is_not_read_back() {
    assert_eq!(bytes_to_words(&[1, 2, 3, 4, 5]), None);
    assert_eq!(bytes_to_words(&[1]), None);
    assert_eq!(bytes_to_words(&[]), Some(vec![]));
}

#[test]
fn words_survive_the_round_trip() {
    let words: Vec<u32> = vec![0, 1, 255, 256, 65535, 65536, 0x00FF_FFFF, 0x0100_0000, u32::MAX];
    assert_eq!(bytes_to_words(&words_to_bytes(&words)), Some(words));
}

#[test]
fn indices_are_written_least_significant_byte_first() {
    let bytes = indices_to_bytes(&[0, 1, 4, 0x0102, 0xFFFE]);
    assert_eq!(bytes, vec![0, 0, 1, 0, 4, 0, 0x02, 0x01, 0xFE, 0xFF]);
}

#[test]
fn the_fan_indices_take_eighteen_bytes() {
    let indices: [u16; 9] = [0, 1, 4, 1, 2, 4, 2, 3, 4];
    let bytes = indices_to_bytes(&indices);
    assert_eq!(bytes.len(), 18);
    assert_eq!(bytes, vec![0, 0, 1, 0, 4, 0, 1, 0, 2, 0, 4, 0, 2, 0, 3, 0, 4, 0]);
}
