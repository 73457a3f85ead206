//! Trusted bindings: the few calls into outside crates, and into std
//! functions vstd leaves unspecified, that the library's logic needs.
//! Verus believes each contract here without proof; every doc comment
//! names the function relied on and for what.

use vstd::prelude::*;

verus! {

/// The UTF-8 decoding of a byte sequence with invalid sequences replaced,
/// as `String::from_utf8_lossy` computes it: a function of the bytes alone.
pub uninterp spec fn utf8_lossy_of(b: Seq<u8>) -> Seq<char>;

/// Relies on `String::from_utf8_lossy`: decodes bytes as UTF-8, replacing
/// invalid sequences with the replacement character; bytes that are all
/// ASCII decode to exactly those characters.
#[verifier::external_body]
pub fn bytes_to_string_lossy(b: &Vec<u8>) -> (r: String)
    ensures
        r@ == utf8_lossy_of(b@),
        (forall|i: int| 0 <= i < b@.len() ==> b@[i] < 0x80) ==> r@ == Seq::new(
            b@.len(),
            |i: int| b@[i] as char,
        ),
{
    String::from_utf8_lossy(b).into_owned()
}

/// The UTF-16 decoding of a unit sequence with invalid surrogates
/// replaced, as `String::from_utf16_lossy` computes it: a function of the
/// units alone.
pub uninterp spec fn utf16_lossy_of(u: Seq<u16>) -> Seq<char>;

/// Relies on `String::from_utf16_lossy`: decodes UTF-16 units, replacing
/// invalid data with the replacement character; units in the ASCII range
/// decode to exactly those characters.
#[verifier::external_body]
pub fn utf16_to_string_lossy(u: &Vec<u16>) -> (r: String)
    ensures
        r@ == utf16_lossy_of(u@),
        (forall|i: int| 0 <= i < u@.len() ==> u@[i] < 0x80) ==> r@ == Seq::new(
            u@.len(),
            |i: int| (u@[i] as u32) as char,
        ),
{
    String::from_utf16_lossy(u)
}

/// Relies on `uuid::Uuid::new_v4` and the `Display` form of `Uuid`: a
/// fresh random version-4 UUID rendered hyphenated — 36 characters,
/// lowercase hexadecimal digits with `-` at positions 8, 13, 18 and 23.
/// The value is random, so nothing else holds of it.
#[verifier::external_body]
pub fn generate_session_key() -> (r: String)
    ensures
        r@.len() == 36,
        r@[8] == '-' && r@[13] == '-' && r@[18] == '-' && r@[23] == '-',
        forall|i: int|
            0 <= i < 36 && i != 8 && i != 13 && i != 18 && i != 23
                ==> crate::json::is_hex_lower(#[trigger] r@[i]),
{
    uuid::Uuid::new_v4().to_string()
}

#[verifier::external_type_specification]
#[verifier::external_body]
pub struct ExDocument(lopdf::Document);

#[verifier::external_type_specification]
#[verifier::external_body]
pub struct ExLopdfError(lopdf::Error);

/// Whether the PDF parser accepts a byte sequence as a readable
/// document, as `lopdf::Document::load_mem` decides it: a function of
/// the bytes alone.
pub uninterp spec fn pdf_parse_ok(bytes: Seq<u8>) -> bool;

/// Relies on `lopdf::Document::load_mem`: parses a PDF document from
/// bytes in memory, succeeding exactly on the bytes the parser accepts.
#[verifier::external_body]
pub fn pdf_load(bytes: &Vec<u8>) -> (r: Result<lopdf::Document, lopdf::Error>)
    ensures
        r is Ok <==> pdf_parse_ok(bytes@),
{
    lopdf::Document::load_mem(bytes)
}

/// Relies on `lopdf::Document::get_pages`: the page map of the document;
/// only its size is taken.
#[verifier::external_body]
pub fn pdf_page_count(doc: &lopdf::Document) -> usize {
    doc.get_pages().len()
}

/// Relies on `lopdf::Document::extract_text`: the text content of the
/// given pages, where the document has extractable text.
#[verifier::external_body]
pub fn pdf_extract_text(doc: &lopdf::Document, pages: &Vec<u32>) -> Result<String, lopdf::Error> {
    doc.extract_text(pages)
}

/// Relies on the `Display` implementation of `lopdf::Error` for a
/// printable message.
#[verifier::external_body]
pub fn pdf_error_message(e: &lopdf::Error) -> String {
    e.to_string()
}

} // verus!
