//! The document store's native key, and its textual form.

use mongodb::bson::oid::ObjectId;
use vstd::prelude::*;

verus! {

/// Whether `c` is one of `0..9`, `a..f`, `A..F`.
pub open spec fn is_hex_digit(c: char) -> bool {
    ||| '0' <= c <= '9'
    ||| 'a' <= c <= 'f'
    ||| 'A' <= c <= 'F'
}

/// The value of a hexadecimal digit, in `0..16`.
pub open spec fn hex_value(c: char) -> int {
    if '0' <= c <= '9' {
        c as int - '0' as int
    } else if 'a' <= c <= 'f' {
        c as int - 'a' as int + 10
    } else {
        c as int - 'A' as int + 10
    }
}

/// Whether `text` is the textual form of a key: exactly 24 hexadecimal
/// digits, in either case.
pub open spec fn is_key_text(text: Seq<char>) -> bool {
    &&& text.len() == 24
    &&& forall|i: int| 0 <= i < 24 ==> is_hex_digit(#[trigger] text[i])
}

/// The twelve bytes that a key text stands for: each pair of digits is one
/// byte, high digit first.
pub open spec fn key_bytes(text: Seq<char>) -> Seq<u8> {
    Seq::new(12, |i: int| (16 * hex_value(text[2 * i]) + hex_value(text[2 * i + 1])) as u8)
}

/// The digit that stands for `value`, a number below 16: `0` to `9`, then
/// `a` to `f`.
pub open spec fn hex_digit(value: int) -> char {
    seq!['0', '1', '2', '3', '4', '5', '6', '7', '8', '9', 'a', 'b', 'c', 'd', 'e', 'f'][value]
}

/// The textual form of a key: two digits for each byte, high digit first,
/// letters in lower case.
pub open spec fn key_text(bytes: Seq<u8>) -> Seq<char> {
    Seq::new(
        2 * bytes.len(),
        |i: int|
            hex_digit(
                if i % 2 == 0 {
                    bytes[i / 2] as int / 16
                } else {
                    bytes[i / 2] as int % 16
                },
            ),
    )
}

/// The textual form of twelve bytes is the text of a key, and stands for
/// these bytes.
pub proof fn key_text_round_trip(bytes: Seq<u8>)
    requires
        bytes.len() == 12,
    ensures
        is_key_text(key_text(bytes)),
        key_bytes(key_text(bytes)) == bytes,
{
    let text = key_text(bytes);
    assert forall|value: int| 0 <= value < 16 implies is_hex_digit(#[trigger] hex_digit(value))
        && hex_value(hex_digit(value)) == value by {}
    assert forall|i: int| 0 <= i < 24 implies is_hex_digit(#[trigger] text[i]) by {}
    assert(key_bytes(text) =~= bytes);
}

/// The key under which the document store files a document.
#[derive(Clone, Copy, Debug, PartialEq, Eq, Hash)]
pub struct DocumentKey {
    bytes: [u8; 12],
}

impl View for DocumentKey {
    type V = Seq<u8>;

    closed spec fn view(&self) -> Seq<u8> {
        self.bytes@
    }
}

impl DeepView for DocumentKey {
    type V = Seq<u8>;

    open spec fn deep_view(&self) -> Seq<u8> {
        self@
    }
}

/// Calls `ObjectId::parse_str` and hands out the raw bytes of the parsed
/// identifier. Claimed, and not proved: the call succeeds exactly on 24
/// hexadecimal digits of either case, and the bytes are the digits decoded
/// pairwise, high digit first.
#[verifier::external_body]
fn parse_object_id(text: &str) -> (parsed: Option<[u8; 12]>)
    ensures
        parsed is Some <==> is_key_text(text@),
        parsed matches Some(bytes) ==> bytes@ == key_bytes(text@),
{
    match ObjectId::parse_str(text) {
        Ok(oid) => Some(oid.bytes()),
        Err(_) => None,
    }
}

/// Calls `ObjectId::from_bytes` and, on the identifier it gives,
/// `ObjectId::to_hex`. Claimed, and not proved: the text holds two
/// hexadecimal digits for each of the twelve bytes, high digit first, with
/// the letters in lower case.
#[verifier::external_body]
fn object_id_hex(bytes: [u8; 12]) -> (text: String)
    ensures
        text@ == key_text(bytes@),
{
    ObjectId::from_bytes(bytes).to_hex()
}

impl DocumentKey {
    /// Wraps twelve raw bytes.
    pub fn from_bytes(bytes: [u8; 12]) -> (key: DocumentKey)
        ensures
            key@ == bytes@,
    {
        DocumentKey { bytes }
    }

    /// The twelve raw bytes.
    pub fn bytes(&self) -> (bytes: [u8; 12])
        ensures
            bytes@ == self@,
    {
        self.bytes
    }

    /// The textual form of the key, which `parse_str` reads back as this
    /// key.
    pub fn to_hex(&self) -> (text: String)
        ensures
            text@ == key_text(self@),
            is_key_text(text@),
            key_bytes(text@) == self@,
    {
        proof {
            key_text_round_trip(self@);
        }
        object_id_hex(self.bytes)
    }

    /// Reads a key from its textual form. Anything but 24 hexadecimal digits
    /// is no key.
    pub fn parse_str(text: &str) -> (key: Option<DocumentKey>)
        ensures
            key is Some <==> is_key_text(text@),
            key matches Some(k) ==> k@ == key_bytes(text@),
    {
        match parse_object_id(text) {
            Some(bytes) => Some(DocumentKey { bytes }),
            None => None,
        }
    }
}

} // verus!
