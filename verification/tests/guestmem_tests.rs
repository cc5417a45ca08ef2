use ya_runtime_wasi::guestmem::{
    decode_slice, decode_str, object_len, string_payload, write_object,
};
use ya_runtime_wasi::utf16::{decode_utf16_units, encode_utf16_str};

/// Lays out one guest object at the given pointer: the length prefix in
/// the four bytes below it, and room for the payload.
fn memory_with_object(ptr: usize, len: usize) -> Vec<u8> {
    let mut mem = vec![0u8; ptr + len + 8];
    let prefix = (len as u32).to_le_bytes();
    mem[ptr - 4..ptr].copy_from_slice(&prefix);
    mem
}

#[test]
fn bytes_round_trip_through_guest_memory() {
    let payload = [0xdeu8, 0xad, 0xbe, 0xef, 0x00, 0x42];
    let mut mem = memory_with_object(16, payload.len());
    write_object(&mut mem, 16, &payload).unwrap();
    let back = decode_slice(&mem, 16).unwrap();
    assert_eq!(back, payload.to_vec());
    assert_eq!(object_len(&mem, 16).unwrap(), payload.len());
}

#[test]
fn string_round_trip_through_guest_memory() {
    let text = "This is it!";
    let payload = string_payload(text);
    assert_eq!(payload.len(), 2 * text.encode_utf16().count());
    let mut mem = memory_with_object(64, payload.len());
    write_object(&mut mem, 64, &payload).unwrap();
    let back = decode_str(&mem, 64).unwrap();
    assert_eq!(back, text);
}

#[test]
fn string_round_trip_with_supplementary_characters() {
    let text = "naïve \u{1F600} end";
    let payload = string_payload(text);
    let mut mem = memory_with_object(8, payload.len());
    write_object(&mut mem, 8, &payload).unwrap();
    assert_eq!(decode_str(&mem, 8).unwrap(), text);
}

#[test]
fn utf16_codec_matches_std() {
    for text in ["", "abc", "żółć", "a\u{10FFFF}b"] {
        let units = encode_utf16_str(text);
        let std_units: Vec<u16> = text.encode_utf16().collect();
        assert_eq!(units, std_units);
        assert_eq!(decode_utf16_units(&units), text);
    }
}

#[test]
fn utf16_decoding_is_lossy_on_lone_surrogates() {
    assert_eq!(decode_utf16_units(&[0xD800]), "\u{FFFD}");
    assert_eq!(decode_utf16_units(&[0xDC00, 0x41]), "\u{FFFD}A");
    assert_eq!(decode_utf16_units(&[0xD800, 0x41]), "\u{FFFD}A");
}

#[test]
fn a_trailing_odd_byte_is_ignored_when_decoding_strings() {
    let mut mem = memory_with_object(8, 5);
    write_object(&mut mem, 8, &[0x41, 0x00, 0x42, 0x00, 0x43]).unwrap();
    assert_eq!(decode_str(&mem, 8).unwrap(), "AB");
}

#[test]
fn invalid_pointers_trap() {
    let mem = memory_with_object(16, 4);
    match decode_slice(&mem, 0).unwrap_err() {
        ya_runtime_wasi::error::Error::GuestTrap(_) => {},
        other => panic!("unexpected error: {:?}", other),
    }
    assert!(decode_slice(&mem, 3).is_err());
    assert!(decode_slice(&mem, mem.len() as u32 + 10).is_err());

    let mut huge = vec![0u8; 16];
    huge[4..8].copy_from_slice(&1000u32.to_le_bytes());
    assert!(decode_slice(&huge, 8).is_err());
}

#[test]
fn write_object_checks_the_length_prefix() {
    let mut mem = memory_with_object(16, 4);
    assert!(write_object(&mut mem, 16, &[1, 2, 3]).is_err());
    assert!(write_object(&mut mem, 16, &[1, 2, 3, 4]).is_ok());
    assert_eq!(&mem[16..20], &[1, 2, 3, 4]);
    assert_eq!(&mem[12..16], &4u32.to_le_bytes());
}
