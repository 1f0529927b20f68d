//! Decoding of the vendor's wide-character buffers.
//!
//! The vendor API hands names, titles, option lists and serial numbers out as
//! fixed-size, nul-padded wide-character arrays.  Turning such a buffer into
//! text is delegated to the `widestring` crate; everything the wrapper
//! decides about those buffers (truncation at the first nul, splitting an
//! option list) is verified code over the raw code units.

use vstd::prelude::*;

verus! {

/// The text that decoding a wide-character buffer yields: truncation at the
/// first nul, then a lossy UTF-32 decode with the replacement character for
/// invalid code units.  The result depends on the code units alone.
pub uninterp spec fn wide_lossy(s: Seq<u32>) -> Seq<char>;

/// Relies on `widestring::U32CString::from_vec_truncate` (truncates the
/// buffer at its first nul value) and `widestring::U32CStr::to_string_lossy`
/// (decodes the code units, substituting U+FFFD for invalid data).  Neither
/// call panics, and the result is a function of the buffer contents alone.
#[verifier::external_body]
pub(crate) fn decode_wide(v: &Vec<u32>) -> (r: String)
    ensures
        r@ == wide_lossy(v@),
        v@.len() == 0 ==> r@.len() == 0,
{
    widestring::U32CString::from_vec_truncate(v.clone()).to_string_lossy()
}

/// Decodes every buffer of a list, in order.
pub(crate) fn decode_wide_all(pieces: &Vec<Vec<u32>>) -> (r: Vec<String>)
    ensures
        r@.len() == pieces@.len(),
        forall|i: int| 0 <= i < pieces@.len() ==> r@[i]@ == wide_lossy(pieces@[i]@),
{
    let mut out: Vec<String> = Vec::new();
    let mut i: usize = 0;
    while i < pieces.len()
        invariant
            i <= pieces@.len(),
            out@.len() == i,
            forall|j: int| 0 <= j < i ==> out@[j]@ == wide_lossy(pieces@[j]@),
        decreases pieces@.len() - i,
    {
        out.push(decode_wide(&pieces[i]));
        i = i + 1;
    }
    out
}

} // verus!
