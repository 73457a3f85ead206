//! PDF project items: identifiers, metadata loaded through the PDF
//! parser, the extension check that routes a file here, and the
//! fallback cascade for page-text extraction.

use vstd::prelude::*;
use vstd::string::StrSliceExecFns;
use vstd::string::StringExecFns;

use crate::outside::{pdf_error_message, pdf_extract_text, pdf_load, pdf_page_count, pdf_parse_ok};
use crate::text::{spec_decimal, trim_bytes, trimmed, u64_to_string};

verus! {

/// What the parser reports about an opened PDF: its page count, kept
/// with the raw bytes for later rendering and extraction.
#[derive(Debug, Clone)]
pub struct PdfMetadata {
    pub page_count: usize,
    pub bytes: Vec<u8>,
}

/// Identifier of one open PDF item.
#[derive(Debug, Copy, Clone, Eq, PartialEq, Hash, Structural)]
pub struct PdfId(u64);

/// The injected source of fresh PDF identifiers: a monotonic counter
/// owned by whoever opens PDFs, starting at one.
pub struct PdfIdAllocator {
    next_id: u64,
}

impl PdfIdAllocator {
    /// The identifier the next mint will take.
    pub closed spec fn next(self) -> u64 {
        self.next_id
    }

    /// A fresh allocator; the first identifier minted is one.
    pub fn new() -> (r: PdfIdAllocator)
        ensures
            r.next() == 1,
    {
        PdfIdAllocator { next_id: 1 }
    }
}

impl PdfId {
    /// The numeric value of the identifier.
    pub closed spec fn spec_id(self) -> u64 {
        self.0
    }

    /// Mints a fresh identifier from the allocator: the allocator's
    /// counter, which then moves past it, so successive mints differ.
    pub fn new(ids: &mut PdfIdAllocator) -> (r: PdfId)
        requires
            old(ids).next() < u64::MAX,
        ensures
            r.spec_id() == old(ids).next(),
            final(ids).next() == old(ids).next() + 1,
    {
        let id = PdfId(ids.next_id);
        ids.next_id = ids.next_id + 1;
        id
    }

    /// Rebuilds an identifier received over the wire.
    pub fn from_proto(id: u64) -> (r: Self)
        ensures
            r.spec_id() == id,
    {
        Self(id)
    }

    /// The wire form of the identifier.
    pub fn to_proto(&self) -> (r: u64)
        ensures
            r == self.spec_id(),
    {
        self.0
    }
}

/// Identifiers minted by an allocator that only ever moved forward are
/// distinct: a mint at one counter value can never equal a mint at a
/// later one.
pub proof fn lemma_minted_ids_distinct(a: PdfId, b: PdfId)
    requires
        a.spec_id() < b.spec_id(),
    ensures
        a != b,
{
}

/// An identifier is nothing but its value: two identifiers with the same
/// value are the same identifier. With `from_proto`'s and `to_proto`'s
/// contracts this gives the round trip at value level:
/// `from_proto(p.to_proto()) == p` for every identifier `p`.
pub proof fn lemma_id_is_its_value(a: PdfId, b: PdfId)
    requires
        a.spec_id() == b.spec_id(),
    ensures
        a == b,
{
}

/// Whether an extension names a PDF: three letters spelling `pdf` in any
/// letter case.
pub open spec fn spec_is_pdf_extension(ext: Seq<char>) -> bool {
    &&& ext.len() == 3
    &&& (ext[0] == 'p' || ext[0] == 'P')
    &&& (ext[1] == 'd' || ext[1] == 'D')
    &&& (ext[2] == 'f' || ext[2] == 'F')
}

/// Checks one extension string.
pub fn extension_is_pdf(ext: &str) -> (r: bool)
    ensures
        r == spec_is_pdf_extension(ext@),
{
    let n = ext.unicode_len();
    if n != 3 {
        return false;
    }
    let c0 = ext.get_char(0);
    let c1 = ext.get_char(1);
    let c2 = ext.get_char(2);
    (c0 == 'p' || c0 == 'P') && (c1 == 'd' || c1 == 'D') && (c2 == 'f' || c2 == 'F')
}

/// Whether a project path names a PDF: by the path's own extension if it
/// has one, else by the worktree root's extension.
pub fn is_pdf_path(primary_ext: Option<String>, fallback_ext: Option<String>) -> (r: bool)
    ensures
        r == match primary_ext {
            Some(e) => spec_is_pdf_extension(e@),
            None => match fallback_ext {
                Some(f) => spec_is_pdf_extension(f@),
                None => false,
            },
        },
{
    match primary_ext {
        Some(e) => extension_is_pdf(e.as_str()),
        None => match fallback_ext {
            Some(f) => extension_is_pdf(f.as_str()),
            None => false,
        },
    }
}

/// Why a PDF could not be opened.
#[derive(Debug)]
pub struct PdfError {
    pub message: String,
}

/// Loads the metadata of a PDF held in memory: it succeeds exactly on
/// bytes the parser accepts, and the metadata then keeps exactly the
/// given bytes, with the page count the parser reports.
pub fn load_pdf_metadata(bytes: Vec<u8>) -> (r: Result<PdfMetadata, PdfError>)
    ensures
        r is Ok <==> pdf_parse_ok(bytes@),
        r matches Ok(m) ==> m.bytes@ == bytes@,
{
    match pdf_load(&bytes) {
        Ok(doc) => {
            let page_count = pdf_page_count(&doc);
            Ok(PdfMetadata { page_count, bytes })
        },
        Err(e) => Err(PdfError { message: pdf_error_message(&e) }),
    }
}

/// A string has visible content when stripping ASCII whitespace from its
/// UTF-8 bytes leaves something.
pub open spec fn spec_has_content(s: Seq<char>) -> bool {
    trimmed(vstd::utf8::encode_utf8(s)).len() > 0
}

/// Whether the extracted text has any visible content.
pub fn has_content(s: &String) -> (r: bool)
    ensures
        r == spec_has_content(s@),
{
    let bytes = s.as_str().as_bytes_vec();
    let t = trim_bytes(&bytes);
    t.len() > 0
}

/// The placeholder for a page beyond the document's end.
pub open spec fn spec_page_missing_text(page_number: nat) -> Seq<char> {
    "[Page "@ + spec_decimal(page_number + 1) + " does not exist]"@
}

/// The fallback when neither the page nor the document has text.
pub open spec fn spec_no_content_text(page_number: nat, page_count: nat) -> Seq<char> {
    "[Page "@ + spec_decimal(page_number + 1) + " of "@ + spec_decimal(page_count)
        + " - No text content found]\n\nThis page may contain only images or be scanned."@
}

/// The fallback when only whole-document extraction yielded text.
pub open spec fn spec_full_document_text(
    page_number: nat,
    page_count: nat,
    text: Seq<char>,
) -> Seq<char> {
    "[Showing full document text]\n\nPage "@ + spec_decimal(page_number + 1) + " of "@
        + spec_decimal(page_count) + "\n\n"@ + text
}

/// The fallback when whole-document extraction failed outright.
pub open spec fn spec_extraction_error_text(page_number: nat, error: Seq<char>) -> Seq<char> {
    "[Could not extract text from page "@ + spec_decimal(page_number + 1) + "]\n\nError: "@ + error
}

/// The text shown for a page that does not exist.
pub fn page_missing_text(page_number: usize) -> (r: String)
    requires
        page_number < usize::MAX,
    ensures
        r@ == spec_page_missing_text(page_number as nat),
{
    let mut r = "[Page ".to_owned();
    r.append(u64_to_string((page_number + 1) as u64).as_str());
    r.append(" does not exist]");
    r
}

/// Settles what the extraction cascade shows once per-page extraction
/// has come back empty: the whole-document text when it has content, a
/// no-content notice when it does not, and the extraction error when
/// even whole-document extraction failed.
pub fn compose_fallback_text(page_number: usize, page_count: usize, whole: Result<String, String>)
    -> (r: String)
    requires
        page_number < usize::MAX,
    ensures
        whole matches Ok(t) ==> {
            &&& spec_has_content(t@) ==> r@ == spec_full_document_text(
                page_number as nat,
                page_count as nat,
                t@,
            )
            &&& !spec_has_content(t@) ==> r@ == spec_no_content_text(
                page_number as nat,
                page_count as nat,
            )
        },
        whole matches Err(e) ==> r@ == spec_extraction_error_text(page_number as nat, e@),
{
    match whole {
        Ok(text) => {
            if has_content(&text) {
                let mut r = "[Showing full document text]\n\nPage ".to_owned();
                r.append(u64_to_string((page_number + 1) as u64).as_str());
                r.append(" of ");
                r.append(u64_to_string(page_count as u64).as_str());
                r.append("\n\n");
                r.append(text.as_str());
                r
            } else {
                let mut r = "[Page ".to_owned();
                r.append(u64_to_string((page_number + 1) as u64).as_str());
                r.append(" of ");
                r.append(u64_to_string(page_count as u64).as_str());
                r.append(
                    " - No text content found]\n\nThis page may contain only images or be scanned.",
                );
                r
            }
        },
        Err(error) => {
            let mut r = "[Could not extract text from page ".to_owned();
            r.append(u64_to_string((page_number + 1) as u64).as_str());
            r.append("]\n\nError: ");
            r.append(error.as_str());
            r
        },
    }
}

/// Extracts the text of one page of a PDF held in memory, falling back
/// in stages: a page beyond the end gets a placeholder; a page
/// whose own extraction has content gets that text; otherwise the whole
/// document is extracted and `compose_fallback_text` settles the
/// message. It fails exactly when the bytes do not parse as a PDF: on
/// parsable bytes every outcome — extraction failure, empty text,
/// out-of-range page — is an explanatory `Ok` string, never an error.
pub fn extract_page_text(bytes: &Vec<u8>, page_number: usize) -> (r: Result<String, PdfError>)
    requires
        page_number < usize::MAX,
    ensures
        r is Ok <==> pdf_parse_ok(bytes@),
        r matches Ok(s) ==> s@.len() > 0,
{
    let doc = match pdf_load(bytes) {
        Ok(d) => d,
        Err(e) => {
            return Err(PdfError { message: pdf_error_message(&e) });
        },
    };
    let page_count = pdf_page_count(&doc);
    if page_number >= page_count {
        let r = page_missing_text(page_number);
        proof {
            lemma_decimal_nonempty((page_number + 1) as nat);
        }
        return Ok(r);
    }
    let mut single_pages: Vec<u32> = Vec::new();
    single_pages.push(#[verifier::truncate] (page_number as u32));
    match pdf_extract_text(&doc, &single_pages) {
        Ok(text) => {
            if has_content(&text) {
                proof {
                    lemma_trimmed_shorter(vstd::utf8::encode_utf8(text@));
                    if text@.len() == 0 {
                        assert(vstd::utf8::encode_utf8(text@) =~= Seq::<u8>::empty());
                    }
                }
                return Ok(text);
            }
        },
        Err(_) => {},
    }
    let mut all_pages: Vec<u32> = Vec::new();
    let mut i: usize = 0;
    while i < page_count
        invariant
            all_pages@.len() == i,
            0 <= i <= page_count,
        decreases page_count - i,
    {
        if i < u32::MAX as usize {
            all_pages.push(i as u32);
        } else {
            all_pages.push(u32::MAX);
        }
        i = i + 1;
    }
    let whole = match pdf_extract_text(&doc, &all_pages) {
        Ok(t) => Ok(t),
        Err(e) => Err(pdf_error_message(&e)),
    };
    let r = compose_fallback_text(page_number, page_count, whole);
    proof {
        lemma_decimal_nonempty(1);
    }
    Ok(r)
}

/// A decimal rendering is never empty.
proof fn lemma_decimal_nonempty(n: nat)
    ensures
        spec_decimal(n).len() >= 1,
{
}

/// Trimming never lengthens a byte string.
proof fn lemma_trimmed_shorter(s: Seq<u8>)
    ensures
        trimmed(s).len() <= s.len(),
{
    lemma_trim_front_shorter(s);
    lemma_trim_back_shorter(crate::text::trim_front(s));
}

proof fn lemma_trim_front_shorter(s: Seq<u8>)
    ensures
        crate::text::trim_front(s).len() <= s.len(),
    decreases s.len(),
{
    if s.len() > 0 && crate::text::is_ascii_space(s[0]) {
        lemma_trim_front_shorter(s.drop_first());
    }
}

proof fn lemma_trim_back_shorter(s: Seq<u8>)
    ensures
        crate::text::trim_back(s).len() <= s.len(),
    decreases s.len(),
{
    if s.len() > 0 && crate::text::is_ascii_space(s.last()) {
        lemma_trim_back_shorter(s.drop_last());
    }
}

/// The open-PDF registry: which identifier a project path maps to. The
/// entity handles themselves live with the shell; the registry records
/// the bindings, later bindings shadowing earlier ones as a map insert
/// would.
pub struct PdfStore {
    by_path: Vec<(String, PdfId)>,
}

/// The identifier bound to `path`, under last-binding-wins.
pub open spec fn spec_lookup(bindings: Seq<(Seq<char>, PdfId)>, path: Seq<char>) -> Option<PdfId>
    decreases bindings.len(),
{
    if bindings.len() == 0 {
        None
    } else if bindings.last().0 == path {
        Some(bindings.last().1)
    } else {
        spec_lookup(bindings.drop_last(), path)
    }
}

impl PdfStore {
    /// The recorded bindings, in insertion order.
    pub closed spec fn bindings(self) -> Seq<(Seq<char>, PdfId)> {
        Seq::new(self.by_path@.len(), |i: int| (self.by_path@[i].0@, self.by_path@[i].1))
    }

    /// An empty registry.
    pub fn new() -> (r: PdfStore)
        ensures
            r.bindings() == Seq::<(Seq<char>, PdfId)>::empty(),
    {
        let r = PdfStore { by_path: Vec::new() };
        proof {
            assert(r.bindings() =~= Seq::<(Seq<char>, PdfId)>::empty());
        }
        r
    }

    /// Records that `path` is open under `id`.
    pub fn register(&mut self, path: String, id: PdfId)
        ensures
            final(self).bindings() == old(self).bindings().push((path@, id)),
    {
        self.by_path.push((path, id));
        proof {
            assert(self.bindings() =~= old(self).bindings().push((path@, id)));
        }
    }

    /// The identifier `path` is open under, if any: the newest binding.
    pub fn get_by_path(&self, path: &String) -> (r: Option<PdfId>)
        ensures
            r == spec_lookup(self.bindings(), path@),
    {
        let n = self.by_path.len();
        proof {
            assert(self.bindings().subrange(0, n as int) =~= self.bindings());
        }
        let mut i: usize = n;
        while i > 0
            invariant
                0 <= i <= n,
                n == self.by_path@.len(),
                spec_lookup(self.bindings(), path@) == spec_lookup(
                    self.bindings().subrange(0, i as int),
                    path@,
                ),
            decreases i,
        {
            let ghost pre = self.bindings().subrange(0, i as int);
            proof {
                assert(pre.last() == self.bindings()[i - 1]);
                assert(pre.drop_last() =~= self.bindings().subrange(0, i - 1));
            }
            if self.by_path[i - 1].0 == *path {
                return Some(self.by_path[i - 1].1);
            }
            i = i - 1;
        }
        proof {
            assert(self.bindings().subrange(0, 0) =~= Seq::<(Seq<char>, PdfId)>::empty());
        }
        None
    }
}

} // verus!
