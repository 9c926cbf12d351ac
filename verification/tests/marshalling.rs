use guestfs::error::Error;
use guestfs::guestfs::ffi_utils::{
    from_c_string, from_c_string_lossy, from_raw_array_full, from_raw_cstring_array_full,
    null_terminated_array_to_vec, to_c_string, NativeSequence,
};

fn strings(items: &[&[u8]]) -> NativeSequence<Vec<u8>> {
    let mut array = NativeSequence::new();
    for item in items {
        assert!(array.push(Some(item.to_vec())));
    }
    assert!(!array.push(None));
    array
}

#[test]
fn argument_gets_its_terminator() {
    assert_eq!(to_c_string("/dev/sda1"), Ok(b"/dev/sda1\0".to_vec()));
}

#[test]
fn empty_argument_is_just_the_terminator() {
    assert_eq!(to_c_string(""), Ok(vec![0u8]));
}

#[test]
fn argument_with_zero_byte_is_rejected_at_its_index() {
    assert_eq!(to_c_string("/dev\0/sda1"), Err(Error::NulError(4)));
}

#[test]
fn argument_with_two_zero_bytes_reports_the_first() {
    assert_eq!(to_c_string("\0a\0"), Err(Error::NulError(0)));
}

#[test]
fn zero_byte_index_counts_bytes_not_characters() {
    assert_eq!(to_c_string("é\0"), Err(Error::NulError(2)));
}

#[test]
fn c_string_is_read_up_to_its_terminator() {
    assert_eq!(from_c_string(b"/dev/sda1\0left over"), Ok(String::from("/dev/sda1")));
}

#[test]
fn c_string_without_terminator_is_read_to_its_end() {
    assert_eq!(from_c_string(b"ext4"), Ok(String::from("ext4")));
}

#[test]
fn empty_c_string_is_the_empty_text() {
    assert_eq!(from_c_string(b"\0"), Ok(String::new()));
    assert_eq!(from_c_string(b""), Ok(String::new()));
}

#[test]
fn invalid_bytes_are_reported_with_the_valid_length() {
    assert_eq!(from_c_string(b"ab\xffcd\0"), Err(Error::Utf8Error(2)));
}

#[test]
fn truncated_character_is_reported() {
    assert_eq!(from_c_string(b"a\xe2\x82\0"), Err(Error::Utf8Error(1)));
}

#[test]
fn invalid_bytes_behind_the_terminator_are_not_read() {
    assert_eq!(from_c_string(b"ok\0\xff\xfe"), Ok(String::from("ok")));
}

#[test]
fn lossy_reading_replaces_what_is_not_text() {
    assert_eq!(from_c_string_lossy(b"a\xffb\0"), String::from("a\u{fffd}b"));
}

#[test]
fn lossy_reading_keeps_valid_text() {
    assert_eq!(from_c_string_lossy("grüße\0".as_bytes()), String::from("grüße"));
}

#[test]
fn text_survives_the_round_trip() {
    for text in ["", "/", "/dev/sda1", "naïve café", "日本語", "a b\tc\n"] {
        let encoded = to_c_string(text).unwrap();
        assert_eq!(encoded.last(), Some(&0u8));
        assert_eq!(from_c_string(&encoded), Ok(String::from(text)));
    }
}

#[test]
fn reading_takes_slots_up_to_the_sentinel() {
    let mut array: NativeSequence<u32> = NativeSequence::new();
    assert_eq!(array.len(), 0);
    assert!(!array.is_terminated());
    assert!(array.push(Some(7)));
    assert!(array.push(Some(8)));
    assert_eq!(array.len(), 2);
    assert!(!array.push(None));
    assert!(array.is_terminated());
    assert_eq!(array.len(), 3);
}

#[test]
fn no_slot_is_read_behind_the_sentinel() {
    let mut array: NativeSequence<u32> = NativeSequence::new();
    array.push(Some(7));
    array.push(None);
    assert!(!array.push(Some(9)));
    assert!(!array.push(None));
    assert_eq!(array.len(), 2);
    assert_eq!(from_raw_array_full(&array), vec![7]);
}

#[test]
fn array_gives_its_values_in_order() {
    let array = NativeSequence::from_slots(vec![Some(3i8), Some(-1), Some(2), None]);
    assert!(array.is_terminated());
    assert_eq!(from_raw_array_full(&array), vec![3i8, -1, 2]);
}

#[test]
fn array_that_starts_with_its_sentinel_is_empty() {
    let array: NativeSequence<u64> = NativeSequence::from_slots(vec![None]);
    assert_eq!(from_raw_array_full(&array), Vec::<u64>::new());
}

#[test]
fn memory_behind_the_sentinel_is_ignored() {
    let array = NativeSequence::from_slots(vec![Some(1u8), None, Some(2), Some(3), None]);
    assert_eq!(array.len(), 5);
    assert_eq!(from_raw_array_full(&array), vec![1u8]);
}

#[test]
fn region_without_sentinel_is_not_terminated() {
    let array = NativeSequence::from_slots(vec![Some(1u8), Some(2)]);
    assert!(!array.is_terminated());
    assert_eq!(from_raw_array_full(&array), vec![1u8, 2]);
}

#[test]
fn array_of_n_values_gives_n_values() {
    for n in 0..20usize {
        let mut array: NativeSequence<usize> = NativeSequence::new();
        for i in 0..n {
            array.push(Some(i * i));
        }
        array.push(None);
        let values = from_raw_array_full(&array);
        assert_eq!(values.len(), n);
        for i in 0..n {
            assert_eq!(values[i], i * i);
        }
    }
}

#[test]
fn string_array_gives_its_texts_in_order() {
    let array = strings(&[b"/dev/sda1\0", b"/dev/sda2\0", b"/dev/sdb1\0"]);
    assert_eq!(
        from_raw_cstring_array_full(array),
        Ok(vec![
            String::from("/dev/sda1"),
            String::from("/dev/sda2"),
            String::from("/dev/sdb1")
        ])
    );
}

#[test]
fn empty_string_array_is_no_error() {
    assert_eq!(from_raw_cstring_array_full(strings(&[])), Ok(Vec::new()));
}

#[test]
fn string_array_reports_its_first_invalid_string() {
    let array = strings(&[b"fine\0", b"bad\xff\0", b"\xffworse\0"]);
    assert_eq!(from_raw_cstring_array_full(array), Err(Error::Utf8Error(3)));
}

#[test]
fn strings_behind_the_sentinel_are_not_read() {
    let array = NativeSequence::from_slots(vec![
        Some(b"one\0".to_vec()),
        None,
        Some(b"\xff\0".to_vec()),
    ]);
    assert_eq!(from_raw_cstring_array_full(array), Ok(vec![String::from("one")]));
}

#[test]
fn borrowed_texts_come_in_order() {
    let array = strings(&[b"/dev/sda1\0", b"\0", b"caf\xc3\xa9\0"]);
    assert_eq!(null_terminated_array_to_vec(&array), vec!["/dev/sda1", "", "café"]);
}

#[test]
fn borrowed_texts_stop_at_the_sentinel() {
    let array =
        NativeSequence::from_slots(vec![Some(b"a\0".to_vec()), None, Some(b"\xff".to_vec())]);
    assert_eq!(null_terminated_array_to_vec(&array), vec!["a"]);
    let empty: NativeSequence<Vec<u8>> = NativeSequence::from_slots(vec![None]);
    assert_eq!(null_terminated_array_to_vec(&empty), Vec::<&str>::new());
}
