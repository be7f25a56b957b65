//! Byte-encoding detection for source documents.
//!
//! A document's bytes may not be UTF-8.  Decoding is an ordered list
//! of attempts: UTF-8 first, then the EUC-KR legacy encoding, which is
//! total (malformed sequences become replacement characters), so no
//! document aborts the pipeline here.

use vstd::prelude::*;

use vstd::utf8::{decode_utf8, valid_utf8};

verus! {

/// The text that the EUC-KR decoder yields for the given bytes.
pub uninterp spec fn euc_kr_chars_of(bytes: Seq<u8>) -> Seq<char>;

/// Relies on `core::str::from_utf8`: it succeeds exactly on valid
/// UTF-8 and then returns a view of the given bytes.
#[verifier::external_body]
fn try_utf8(bytes: &[u8]) -> (r: Option<&str>)
    ensures
        match r {
            Some(s) => valid_utf8(bytes@) && s@ == decode_utf8(bytes@),
            None => !valid_utf8(bytes@),
        },
{
    core::str::from_utf8(bytes).ok()
}

/// Relies on `encoding_rs::EUC_KR`'s decoder: the decoded text is a
/// function of the input bytes alone, and decoding is total.
#[verifier::external_body]
fn euc_kr_decode(bytes: &[u8]) -> (r: String)
    ensures
        r@ == euc_kr_chars_of(bytes@),
{
    let (text, _, _) = encoding_rs::EUC_KR.decode(bytes);
    text.into_owned()
}

/// The text a document's bytes decode to: the UTF-8 reading when the
/// bytes are valid UTF-8, the EUC-KR reading otherwise.
pub open spec fn document_chars_of(bytes: Seq<u8>) -> Seq<char> {
    if valid_utf8(bytes) {
        decode_utf8(bytes)
    } else {
        euc_kr_chars_of(bytes)
    }
}

/// Decode a document's bytes, trying UTF-8 first and falling back to
/// EUC-KR.
pub fn decode_document(bytes: &[u8]) -> (text: String)
    ensures
        text@ == document_chars_of(bytes@),
{
    match try_utf8(bytes) {
        Some(s) => s.to_owned(),
        None => euc_kr_decode(bytes),
    }
}

} // verus!
