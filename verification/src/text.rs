//! Extraction of NUL-terminated text from fixed-width byte fields.

use vstd::prelude::*;
use vstd::slice::slice_subrange;
use vstd::string::StringSliceAdditionalSpecFns;
use vstd::utf8::decode_utf8;
use vstd::utf8::encode_utf8_decode_utf8;
use vstd::utf8::valid_utf8;

verus! {

/// The bytes of a fixed-width field that count as text: the bytes before the
/// first NUL byte, or the whole field when no NUL byte is present.
pub open spec fn text_bytes(field: Seq<u8>) -> Seq<u8>
    decreases field.len(),
{
    if field.len() == 0 || field[0] == 0 {
        Seq::empty()
    } else {
        seq![field[0]] + text_bytes(field.drop_first())
    }
}

/// Law: when a NUL byte stands at position `k` and no NUL byte stands before
/// it, the text of the field is exactly the bytes before position `k`.
pub proof fn lemma_text_stops_at_first_nul(field: Seq<u8>, k: int)
    requires
        0 <= k < field.len(),
        field[k] == 0,
        forall|i: int| 0 <= i < k ==> field[i] != 0,
    ensures
        text_bytes(field) == field.take(k),
    decreases k,
{
    if k == 0 {
        assert(text_bytes(field) =~= field.take(0));
    } else {
        lemma_text_stops_at_first_nul(field.drop_first(), k - 1);
        assert(seq![field[0]] + field.drop_first().take(k - 1) =~= field.take(k));
    }
}

/// Law: a field with no NUL byte anywhere is text over its full width.
pub proof fn lemma_text_full_width(field: Seq<u8>)
    requires
        forall|i: int| 0 <= i < field.len() ==> field[i] != 0,
    ensures
        text_bytes(field) == field,
    decreases field.len(),
{
    if field.len() == 0 {
        assert(text_bytes(field) =~= field);
    } else {
        lemma_text_full_width(field.drop_first());
        assert(seq![field[0]] + field.drop_first() =~= field);
    }
}

/// Law: a field made of NUL bytes alone, of any width, has empty text, and
/// that text decodes successfully to the empty character sequence.
pub proof fn lemma_text_all_nul_is_empty(field: Seq<u8>)
    requires
        forall|i: int| 0 <= i < field.len() ==> field[i] == 0,
    ensures
        text_bytes(field) == Seq::<u8>::empty(),
        valid_utf8(text_bytes(field)),
        decode_utf8(text_bytes(field)) == Seq::<char>::empty(),
{
    assert(text_bytes(field) =~= Seq::<u8>::empty());
}

/// Relies on `core::str::from_utf8`: it succeeds exactly on byte slices that
/// are valid UTF-8, and then returns a string slice over those same bytes.
#[verifier::external_body]
fn utf8_text<'a>(bytes: &'a [u8]) -> (r: Option<&'a str>)
    ensures
        r is Some <==> valid_utf8(bytes@),
        r matches Some(s) ==> s.spec_bytes() == bytes@,
{
    core::str::from_utf8(bytes).ok()
}

/// Extracts the text of a fixed-width field: the bytes before the first NUL
/// byte (the whole field when none is present), decoded as UTF-8. Returns
/// `None` exactly when those bytes are not valid UTF-8.
pub fn c_string<'a>(bytes: &'a [u8]) -> (r: Option<&'a str>)
    ensures
        r is Some <==> valid_utf8(text_bytes(bytes@)),
        r matches Some(s) ==> s@ == decode_utf8(text_bytes(bytes@)),
{
    let n = bytes.len();
    let mut i: usize = 0;
    while i < n && bytes[i] != 0
        invariant
            0 <= i <= n == bytes@.len(),
            forall|j: int| 0 <= j < i ==> bytes@[j] != 0,
        decreases n - i,
    {
        i += 1;
    }
    let prefix = slice_subrange(bytes, 0, i);
    proof {
        if i < n {
            lemma_text_stops_at_first_nul(bytes@, i as int);
        } else {
            lemma_text_full_width(bytes@);
        }
        assert(prefix@ =~= text_bytes(bytes@));
    }
    let r = utf8_text(prefix);
    proof {
        if let Some(s) = r {
            encode_utf8_decode_utf8(s@);
        }
    }
    r
}

} // verus!
