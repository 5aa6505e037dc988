//! Verified helpers for the text values that cross the native boundary.

use vstd::prelude::*;
use vstd::string::StrSliceExecFns;
use vstd::utf8::{decode_utf8, valid_utf8};

verus! {

/// Compares two string slices character by character.
pub fn str_eq(a: &str, b: &str) -> (r: bool)
    ensures
        r == (a@ == b@),
{
    let a_len = a.unicode_len();
    let b_len = b.unicode_len();
    if a_len != b_len {
        return false;
    }
    let mut i: usize = 0;
    while i < a_len
        invariant
            a_len == a@.len(),
            b_len == b@.len(),
            a_len == b_len,
            i <= a_len,
            forall|j: int| 0 <= j < i ==> a@[j] == b@[j],
        decreases a_len - i,
    {
        if a.get_char(i) != b.get_char(i) {
            return false;
        }
        i = i + 1;
    }
    proof {
        assert(a@ =~= b@);
    }
    true
}

/// Whether the text holds the character that the native text encoding
/// forbids as an interior terminator.
pub fn contains_nul(s: &str) -> (r: bool)
    ensures
        r == s@.contains('\0'),
{
    let len = s.unicode_len();
    let mut i: usize = 0;
    while i < len
        invariant
            len == s@.len(),
            i <= len,
            forall|j: int| 0 <= j < i ==> s@[j] != '\0',
        decreases len - i,
    {
        if s.get_char(i) == '\0' {
            return true;
        }
        i = i + 1;
    }
    false
}

/// The index of the first terminator byte, or the length of the buffer
/// when it holds none.
pub open spec fn nul_index(bytes: Seq<u8>) -> int
    decreases bytes.len(),
{
    if bytes.len() == 0 {
        0
    } else if bytes[0] == 0 {
        0
    } else {
        1 + nul_index(bytes.drop_first())
    }
}

/// `nul_index` names the first terminator: every byte before it is
/// non-zero, and it points at a zero byte unless the buffer holds none.
pub proof fn lemma_nul_index_is_first(bytes: Seq<u8>)
    ensures
        0 <= nul_index(bytes) <= bytes.len(),
        nul_index(bytes) < bytes.len() ==> bytes[nul_index(bytes)] == 0,
        forall|j: int| 0 <= j < nul_index(bytes) ==> bytes[j] != 0,
    decreases bytes.len(),
{
    if bytes.len() > 0 && bytes[0] != 0 {
        lemma_nul_index_is_first(bytes.drop_first());
        assert forall|j: int| 0 <= j < nul_index(bytes) implies bytes[j] != 0 by {
            if j > 0 {
                assert(bytes.drop_first()[j - 1] != 0);
            }
        }
    }
}

/// In a buffer that starts with terminator-free text followed by a
/// terminator, the first terminator stands exactly after the text.
pub proof fn lemma_nul_index_of_terminated(text: Seq<u8>, rest: Seq<u8>)
    requires
        forall|j: int| 0 <= j < text.len() ==> text[j] != 0,
    ensures
        nul_index(text + seq![0u8] + rest) == text.len(),
        (text + seq![0u8] + rest).take(text.len() as int) == text,
{
    let s = text + seq![0u8] + rest;
    lemma_nul_index_is_first(s);
    assert(s[text.len() as int] == 0);
    if nul_index(s) < text.len() {
        assert(s[nul_index(s)] == text[nul_index(s)]);
    }
    if nul_index(s) > text.len() {
        assert(s[text.len() as int] != 0);
    }
    assert(s.take(text.len() as int) =~= text);
}

/// How a native "simple string" buffer decodes: the bytes up to the first
/// terminator are the value and must be valid text; a buffer without a
/// terminator is treated as an encoding failure.
pub open spec fn decodes_simple_string(
    bytes: Seq<u8>,
    r: Result<String, crate::error::NiSystemConfigurationError>,
) -> bool {
    let p = nul_index(bytes);
    if p == bytes.len() {
        r == Err::<String, _>(crate::error::NiSystemConfigurationError::EncodingError)
    } else if !valid_utf8(bytes.take(p)) {
        r == Err::<String, _>(crate::error::NiSystemConfigurationError::EncodingError)
    } else {
        &&& r is Ok
        &&& r->Ok_0@ == decode_utf8(bytes.take(p))
    }
}

/// Relies on `String::from_utf8`: it returns the string made of exactly
/// the given bytes when they are valid UTF-8, and an error otherwise.
pub assume_specification[ String::from_utf8 ](bytes: Vec<u8>) -> (r: Result<
    String,
    std::string::FromUtf8Error,
>)
    ensures
        valid_utf8(bytes@) <==> r is Ok,
        r is Ok ==> r->Ok_0@ == decode_utf8(bytes@),
;

#[verifier::external_type_specification]
#[verifier::external_body]
pub struct ExFromUtf8Error(std::string::FromUtf8Error);

/// Reclaims a buffer the native layer filled: scans to the first
/// terminator byte and decodes what stands before it as text.
pub fn decode_simple_string(buffer: &Vec<u8>) -> (r: Result<
    String,
    crate::error::NiSystemConfigurationError,
>)
    ensures
        decodes_simple_string(buffer@, r),
{
    proof {
        lemma_nul_index_is_first(buffer@);
    }
    let len = buffer.len();
    let mut i: usize = 0;
    while i < len && buffer[i] != 0
        invariant
            len == buffer@.len(),
            i <= len,
            forall|j: int| 0 <= j < i ==> buffer@[j] != 0,
        decreases len - i,
    {
        i = i + 1;
    }
    proof {
        assert(i == nul_index(buffer@));
    }
    if i == len {
        return Err(crate::error::NiSystemConfigurationError::EncodingError);
    }
    let mut prefix: Vec<u8> = Vec::new();
    let mut j: usize = 0;
    while j < i
        invariant
            i < buffer@.len(),
            j <= i,
            prefix@ == buffer@.take(j as int),
        decreases i - j,
    {
        prefix.push(buffer[j]);
        proof {
            assert(buffer@.take(j + 1) =~= buffer@.take(j as int).push(buffer@[j as int]));
        }
        j = j + 1;
    }
    match String::from_utf8(prefix) {
        Ok(text) => Ok(text),
        Err(_) => Err(crate::error::NiSystemConfigurationError::EncodingError),
    }
}

} // verus!
