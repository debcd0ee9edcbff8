//! The identifier codec: between the textual identifier that clients send
//! and the twelve bytes under which the store files a document.

use crate::errors::{Error, ErrorView};
use mongodb::bson::oid::ObjectId;
use vstd::prelude::*;
use vstd::string::StringExecFns;

verus! {

/// Whether `c` is one of `0-9`, `a-f`, `A-F`.
pub open spec fn is_hex_digit(c: char) -> bool {
    ('0' <= c && c <= '9') || ('a' <= c && c <= 'f') || ('A' <= c && c <= 'F')
}

/// The number that a hexadecimal digit stands for.
pub open spec fn hex_value(c: char) -> int {
    if '0' <= c && c <= '9' {
        c as int - 48
    } else if 'a' <= c && c <= 'f' {
        c as int - 87
    } else {
        c as int - 55
    }
}

/// The lower-case hexadecimal digit for a number below sixteen.
pub open spec fn hex_digit(n: int) -> char {
    if n < 10 {
        (48 + n) as char
    } else {
        (87 + n) as char
    }
}

/// Whether `s` is an identifier in the store's textual format: twenty-four
/// hexadecimal digits.
pub open spec fn is_object_id_text(s: Seq<char>) -> bool {
    s.len() == 24 && forall|i: int| 0 <= i < 24 ==> is_hex_digit(#[trigger] s[i])
}

/// The bytes that a string of hexadecimal digits spells, two digits a byte,
/// the high half first.
pub open spec fn bytes_of_hex(s: Seq<char>) -> Seq<u8> {
    Seq::new(s.len() / 2, |i: int| (16 * hex_value(s[2 * i]) + hex_value(s[2 * i + 1])) as u8)
}

/// The lower-case hexadecimal spelling of a byte string.
pub open spec fn hex_of_bytes(b: Seq<u8>) -> Seq<char> {
    Seq::new(
        2 * b.len(),
        |i: int|
            hex_digit(
                if i % 2 == 0 {
                    b[i / 2] as int / 16
                } else {
                    b[i / 2] as int % 16
                },
            ),
    )
}

/// The identifier of a stored note.
#[derive(Clone, Copy, Debug, PartialEq, Eq)]
pub struct NoteId {
    pub bytes: [u8; 12],
}

impl View for NoteId {
    type V = Seq<u8>;

    open spec fn view(&self) -> Seq<u8> {
        self.bytes@
    }
}

/// `ObjectId::parse_str`: succeeds exactly on twenty-four hexadecimal
/// digits, of either case, and then yields the twelve bytes they spell.
#[verifier::external_body]
fn decode_object_id(raw: &str) -> (bytes: Option<[u8; 12]>)
    ensures
        bytes is Some <==> is_object_id_text(raw@),
        bytes matches Some(b) ==> b@ == bytes_of_hex(raw@),
{
    match ObjectId::parse_str(raw) {
        Ok(oid) => Some(oid.bytes()),
        Err(_) => None,
    }
}

/// `ObjectId::to_hex`: the twelve bytes as twenty-four lower-case
/// hexadecimal digits.
#[verifier::external_body]
fn encode_object_id(bytes: [u8; 12]) -> (text: String)
    ensures
        text@ == hex_of_bytes(bytes@),
{
    ObjectId::from_bytes(bytes).to_hex()
}

impl NoteId {
    /// Reads an identifier from its textual form. Anything but twenty-four
    /// hexadecimal digits is turned away with the offending string.
    pub fn parse_str(raw: &str) -> (parsed: Result<NoteId, Error>)
        ensures
            parsed is Ok <==> is_object_id_text(raw@),
            parsed matches Ok(id) ==> id@ == bytes_of_hex(raw@),
            parsed matches Err(e) ==> e@ == ErrorView::InvalidIDError(raw@),
    {
        match decode_object_id(raw) {
            Some(bytes) => Ok(NoteId { bytes }),
            None => Err(Error::InvalidIDError(String::from_str(raw))),
        }
    }

    /// The canonical textual form of the identifier.
    pub fn to_hex(&self) -> (text: String)
        ensures
            text@ == hex_of_bytes(self@),
    {
        encode_object_id(self.bytes)
    }
}

/// The canonical form of an identifier is itself a valid identifier text.
pub proof fn lemma_hex_is_object_id_text(b: Seq<u8>)
    requires
        b.len() == 12,
    ensures
        is_object_id_text(hex_of_bytes(b)),
{
    let s = hex_of_bytes(b);
    assert forall|i: int| 0 <= i < 24 implies is_hex_digit(#[trigger] s[i]) by {
        let n = if i % 2 == 0 {
            b[i / 2] as int / 16
        } else {
            b[i / 2] as int % 16
        };
        assert(0 <= n < 16);
        assert(s[i] == hex_digit(n));
    }
}

/// Parsing the canonical form of an identifier gives the identifier back.
pub proof fn lemma_hex_round_trip(b: Seq<u8>)
    requires
        b.len() == 12,
    ensures
        is_object_id_text(hex_of_bytes(b)),
        bytes_of_hex(hex_of_bytes(b)) == b,
{
    lemma_hex_is_object_id_text(b);
    let s = hex_of_bytes(b);
    assert forall|i: int| 0 <= i < 12 implies #[trigger] bytes_of_hex(s)[i] == b[i] by {
        let hi = b[i] as int / 16;
        let lo = b[i] as int % 16;
        assert(s[2 * i] == hex_digit(hi));
        assert(s[2 * i + 1] == hex_digit(lo));
        assert(hex_value(hex_digit(hi)) == hi);
        assert(hex_value(hex_digit(lo)) == lo);
    }
    assert(bytes_of_hex(s) =~= b);
}

} // verus!
