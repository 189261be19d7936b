use janus_plugin::jansson::{
    check_input, decode_failure, decode_outcome, json_decoding_flags, json_decref,
    json_encoding_flags, json_incref, json_t, json_type, DecodeError, JanssonDecodingFlags,
    JanssonEncodingFlags, JanssonValue, JSON_MAX_INDENT,
};

fn native(refcount: usize) -> json_t {
    json_t { type_: json_type::JSON_OBJECT, refcount }
}

#[test]
fn json_types_go_to_their_numbers_and_back() {
    for code in 0..8u32 {
        assert_eq!(json_type::from_code(code).unwrap().code(), code);
    }
    assert_eq!(json_type::from_code(8), None);
    assert_eq!(json_type::JSON_OBJECT.code(), 0);
    assert_eq!(json_type::JSON_REAL.code(), 4);
    assert_eq!(json_type::JSON_NULL.code(), 7);
    assert_eq!(JSON_MAX_INDENT, 31);
}

#[test]
fn decoding_flags_take_the_bits_0_to_4() {
    assert_eq!(json_decoding_flags::JSON_REJECT_DUPLICATES.bit(), 1);
    assert_eq!(json_decoding_flags::JSON_DISABLE_EOF_CHECK.bit(), 2);
    assert_eq!(json_decoding_flags::JSON_DECODE_ANY.bit(), 4);
    assert_eq!(json_decoding_flags::JSON_DECODE_INT_AS_REAL.bit(), 8);
    assert_eq!(json_decoding_flags::JSON_ALLOW_NUL.bit(), 16);
    assert_eq!(JanssonDecodingFlags::all().bits(), 0x1f);
    assert_eq!(JanssonDecodingFlags::empty().bits(), 0);
}

#[test]
fn encoding_flags_take_the_bits_5_to_10_and_a_high_bit() {
    assert_eq!(json_encoding_flags::JSON_COMPACT.bit(), 32);
    assert_eq!(json_encoding_flags::JSON_ENSURE_ASCII.bit(), 64);
    assert_eq!(json_encoding_flags::JSON_SORT_KEYS.bit(), 128);
    assert_eq!(json_encoding_flags::JSON_PRESERVE_ORDER.bit(), 256);
    assert_eq!(json_encoding_flags::JSON_ENCODE_ANY.bit(), 512);
    assert_eq!(json_encoding_flags::JSON_ESCAPE_SLASH.bit(), 1024);
    assert_eq!(json_encoding_flags::JSON_EMBED.bit(), 65536);
    assert_eq!(JanssonEncodingFlags::all().bits(), 0x107e0);
    assert_eq!(JanssonEncodingFlags::empty().bits(), 0);
}

#[test]
fn flag_words_are_checked_and_combined() {
    assert!(JanssonDecodingFlags::from_bits(0x20).is_none());
    assert_eq!(JanssonDecodingFlags::from_bits(0x14).unwrap().bits(), 0x14);
    assert!(JanssonEncodingFlags::from_bits(0x1).is_none());
    assert!(JanssonEncodingFlags::from_bits(0x800).is_none());
    assert_eq!(JanssonEncodingFlags::from_bits(0x10020).unwrap().bits(), 0x10020);

    let compact = JanssonEncodingFlags::of(json_encoding_flags::JSON_COMPACT);
    let sorted = JanssonEncodingFlags::of(json_encoding_flags::JSON_SORT_KEYS);
    let both = compact.union(sorted);
    assert_eq!(both.bits(), 0xa0);
    assert!(both.contains(compact));
    assert!(both.contains(sorted));
    assert!(!compact.contains(sorted));
    assert!(compact.contains(JanssonEncodingFlags::empty()));

    let any = JanssonDecodingFlags::of(json_decoding_flags::JSON_DECODE_ANY);
    let nul = JanssonDecodingFlags::of(json_decoding_flags::JSON_ALLOW_NUL);
    assert_eq!(any.union(nul).bits(), 0x14);
    assert!(any.union(nul).contains(nul));
    assert!(!any.contains(nul));
}

#[test]
fn the_count_of_a_native_value_goes_up_and_down() {
    let mut value = native(1);
    json_incref(&mut value);
    assert_eq!(value.refcount, 2);
    assert!(!json_decref(&mut value));
    assert_eq!(value.refcount, 1);
    assert!(json_decref(&mut value));
    assert_eq!(value.refcount, 0);
}

#[test]
fn there_is_no_wrapper_for_the_null_address() {
    assert!(JanssonValue::from_raw(0).is_none());
    let mut value = native(1);
    assert!(JanssonValue::from_and_incref(0, &mut value).is_none());
    assert_eq!(value.refcount, 1);
}

#[test]
fn adopting_leaves_the_count_and_retaining_adds_to_it() {
    let mut value = native(1);
    let adopted = JanssonValue::from_raw(0x1000).unwrap();
    assert_eq!(adopted.as_ptr(), 0x1000);
    assert_eq!(value.refcount, 1);
    let retained = JanssonValue::from_and_incref(0x1000, &mut value).unwrap();
    assert_eq!(retained.as_ptr(), 0x1000);
    assert_eq!(value.refcount, 2);
    assert!(!retained.release(&mut value));
    assert!(adopted.release(&mut value));
    assert_eq!(value.refcount, 0);
}

#[test]
fn every_copy_adds_one_and_every_release_takes_one() {
    let mut value = native(1);
    let first = JanssonValue::from_raw(0x1000).unwrap();
    let second = first.duplicate(&mut value);
    let third = second.duplicate(&mut value);
    assert_eq!(second.as_ptr(), 0x1000);
    assert_eq!(third.as_ptr(), 0x1000);
    assert_eq!(value.refcount, 3);
    assert!(!second.release(&mut value));
    assert!(!first.release(&mut value));
    assert_eq!(value.refcount, 1);
    assert!(third.release(&mut value));
    assert_eq!(value.refcount, 0);
}

#[test]
fn a_value_that_is_handed_over_keeps_its_count() {
    let mut value = native(1);
    let wrapper = JanssonValue::from_raw(0x1000).unwrap();
    assert_eq!(wrapper.into_raw(&mut value), 0x1000);
    assert_eq!(value.refcount, 1);
}

#[test]
fn a_retained_value_outlives_its_wrapper() {
    // Native code holds one reference. The wrapper retains the value and
    // gives it up again: the value is still there for native code.
    let mut value = native(1);
    let wrapper = JanssonValue::from_and_incref(0x1000, &mut value).unwrap();
    let copy = wrapper.duplicate(&mut value);
    assert!(!wrapper.release(&mut value));
    assert!(!copy.release(&mut value));
    assert_eq!(value.refcount, 1);
}

#[test]
fn an_input_with_a_zero_byte_is_not_handed_to_the_decoder() {
    assert!(check_input("{\"a\": 1}").is_ok());
    assert!(check_input("").is_ok());
    match check_input("{\"a\"\0: 1}") {
        Err(DecodeError::InteriorNul(position)) => assert_eq!(position, 4),
        other => panic!("unexpected: {:?}", other),
    }
    match check_input("\0") {
        Err(DecodeError::InteriorNul(position)) => assert_eq!(position, 0),
        other => panic!("unexpected: {:?}", other),
    }
}

fn report() -> Vec<u8> {
    let mut text = vec![0u8; 160];
    let message = b"'[' or '{' expected near end of file";
    text[..message.len()].copy_from_slice(message);
    text[100] = b'!';
    text
}

#[test]
fn a_refused_input_leaves_the_report_of_the_decoder() {
    match decode_failure(1, 5, 5, &report()) {
        DecodeError::Malformed(error) => {
            assert_eq!(error.line, 1);
            assert_eq!(error.column, 5);
            assert_eq!(error.position, 5);
            assert_eq!(error.text, "'[' or '{' expected near end of file");
            assert!(!error.text.is_empty());
        }
        other => panic!("unexpected: {:?}", other),
    }
}

#[test]
fn a_report_that_is_not_text_is_an_encoding_error() {
    let mut text = report();
    text[3] = 0xff;
    assert!(matches!(decode_failure(1, 5, 5, &text), DecodeError::Encoding));
}

#[test]
fn a_decoder_that_gave_a_value_gave_no_error() {
    let outcome = decode_outcome(0x1000, -1, -1, 0, &[0u8; 160]);
    assert_eq!(outcome.unwrap().as_ptr(), 0x1000);
}

#[test]
fn a_decoder_that_gave_the_null_address_gave_an_error() {
    match decode_outcome(0, 1, 5, 5, &report()) {
        Err(DecodeError::Malformed(error)) => {
            assert_eq!(error.text, "'[' or '{' expected near end of file");
            assert_eq!((error.line, error.column, error.position), (1, 5, 5));
        }
        other => panic!("unexpected: {:?}", other),
    }
}
