use notes_crud::errors::Error;
use notes_crud::oid::NoteId;

#[test]
fn parse_then_print_identifier() {
    let id = NoteId::parse_str("6021e59541a3ae69b39ecb46").unwrap();
    assert_eq!(
        id.bytes,
        [0x60, 0x21, 0xe5, 0x95, 0x41, 0xa3, 0xae, 0x69, 0xb3, 0x9e, 0xcb, 0x46]
    );
    assert_eq!(id.to_hex(), "6021e59541a3ae69b39ecb46");
}

#[test]
fn upper_case_digits_are_accepted_and_printed_in_lower_case() {
    let id = NoteId::parse_str("6021E59541A3AE69B39ECB46").unwrap();
    assert_eq!(id.bytes[2], 0xe5);
    assert_eq!(id.to_hex(), "6021e59541a3ae69b39ecb46");
}

#[test]
fn print_then_parse_identifier() {
    let id = NoteId { bytes: [0, 1, 2, 0x0f, 0x10, 0x7f, 0x80, 0xfe, 0xff, 9, 10, 11] };
    let text = id.to_hex();
    assert_eq!(text, "0001020f107f80feff090a0b");
    assert_eq!(text.len(), 24);
    assert_eq!(NoteId::parse_str(&text).unwrap(), id);
}

#[test]
fn words_are_no_identifier() {
    assert_eq!(
        NoteId::parse_str("not-an-id"),
        Err(Error::InvalidIDError("not-an-id".to_string()))
    );
}

#[test]
fn empty_string_is_no_identifier() {
    assert_eq!(NoteId::parse_str(""), Err(Error::InvalidIDError(String::new())));
}

#[test]
fn wrong_length_is_no_identifier() {
    let short = "6021e59541a3ae69b39ecb4";
    let long = "6021e59541a3ae69b39ecb4600";
    assert_eq!(NoteId::parse_str(short), Err(Error::InvalidIDError(short.to_string())));
    assert_eq!(NoteId::parse_str(long), Err(Error::InvalidIDError(long.to_string())));
}

#[test]
fn other_characters_are_no_identifier() {
    let raw = "6021e59541a3ae69b39ecbg6";
    assert_eq!(NoteId::parse_str(raw), Err(Error::InvalidIDError(raw.to_string())));
    let wide = "6021e59541a3ae69b39ecb\u{e9}";
    assert_eq!(NoteId::parse_str(wide), Err(Error::InvalidIDError(wide.to_string())));
}
