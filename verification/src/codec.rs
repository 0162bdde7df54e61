//! Decoding of transferred property payloads.
//!
//! A negotiation payload is an array of atoms, eight little-endian bytes
//! each; a transfer payload is a text buffer read up to its first NUL byte
//! and decoded as UTF-8.

use crate::errors::WatchError;
use vstd::prelude::*;
use vstd::utf8::{decode_utf8, encode_utf8, encode_utf8_decode_utf8, valid_utf8};

verus! {

/// The atom stored little-endian in the eight bytes starting at `8 * i`.
pub open spec fn atom_at(b: Seq<u8>, i: int) -> u64 {
    (b[8 * i] + b[8 * i + 1] * 0x100 + b[8 * i + 2] * 0x1_0000 + b[8 * i + 3] * 0x100_0000 + b[8
        * i + 4] * 0x1_0000_0000 + b[8 * i + 5] * 0x100_0000_0000 + b[8 * i + 6]
        * 0x1_0000_0000_0000 + b[8 * i + 7] * 0x100_0000_0000_0000) as u64
}

/// The atom array a payload of whole eight-byte groups holds.
pub open spec fn spec_atoms(b: Seq<u8>) -> Seq<u64> {
    Seq::new((b.len() / 8) as nat, |i: int| atom_at(b, i))
}

/// Decodes a negotiation payload into the atoms it lists: one atom per
/// eight-byte little-endian group. A payload that is not a whole number of
/// groups is not an atom array and is rejected.
pub fn decode_atoms(b: &Vec<u8>) -> (r: Result<Vec<u64>, WatchError>)
    ensures
        b@.len() % 8 == 0 ==> (r matches Ok(v) && v@ == spec_atoms(b@)),
        b@.len() % 8 != 0 ==> (r matches Err(e) && e == WatchError::DecodeError),
{
    let len = b.len();
    if len % 8 != 0 {
        return Err(WatchError::DecodeError);
    }
    let n = len / 8;
    let mut atoms: Vec<u64> = Vec::new();
    let mut i: usize = 0;
    while i < n
        invariant
            b@.len() % 8 == 0,
            n == b@.len() / 8,
            8 * n == b@.len(),
            8 * n <= usize::MAX,
            i <= n,
            atoms@.len() == i,
            forall|k: int| 0 <= k < i ==> atoms@[k] == atom_at(b@, k),
        decreases n - i,
    {
        let j = 8 * i;
        let a: u64 = (b[j] as u64) + (b[j + 1] as u64) * 0x100 + (b[j + 2] as u64) * 0x1_0000 + (b[j
            + 3] as u64) * 0x100_0000 + (b[j + 4] as u64) * 0x1_0000_0000 + (b[j + 5] as u64)
            * 0x100_0000_0000 + (b[j + 6] as u64) * 0x1_0000_0000_0000 + (b[j + 7] as u64)
            * 0x100_0000_0000_0000;
        atoms.push(a);
        i = i + 1;
    }
    proof {
        assert(atoms@ =~= spec_atoms(b@));
    }
    Ok(atoms)
}

/// Where the text in a transfer payload ends: at its first NUL byte, or at
/// the end of the payload when no byte is NUL.
pub open spec fn text_end(b: Seq<u8>) -> int
    decreases b.len(),
{
    if b.len() == 0 {
        0
    } else if b[0] == 0 {
        0
    } else {
        1 + text_end(b.drop_first())
    }
}

/// The text bytes of a transfer payload: everything before the first NUL.
pub open spec fn spec_trim_nul(b: Seq<u8>) -> Seq<u8> {
    b.take(text_end(b))
}

/// `text_end` is the position of the first NUL, or the length.
pub proof fn lemma_text_end(b: Seq<u8>)
    ensures
        0 <= text_end(b) <= b.len(),
        forall|j: int| 0 <= j < text_end(b) ==> b[j] != 0,
        text_end(b) < b.len() ==> b[text_end(b)] == 0,
    decreases b.len(),
{
    if b.len() > 0 && b[0] != 0 {
        lemma_text_end(b.drop_first());
        assert(forall|j: int| 0 <= j < text_end(b) ==> b[j] != 0) by {
            assert(forall|j: int|
                1 <= j < text_end(b) ==> b[j] == b.drop_first()[j - 1] && b.drop_first()[j - 1]
                    != 0);
        }
    }
}

/// Copies the text bytes of a payload: everything before its first NUL byte.
pub fn trim_at_nul(b: &Vec<u8>) -> (r: Vec<u8>)
    ensures
        r@ == spec_trim_nul(b@),
{
    proof {
        lemma_text_end(b@);
    }
    let len = b.len();
    let mut i: usize = 0;
    let mut out: Vec<u8> = Vec::new();
    while i < len && b[i] != 0
        invariant
            len == b@.len(),
            i <= len,
            out@ =~= b@.take(i as int),
            forall|j: int| 0 <= j < i ==> b@[j] != 0,
        decreases len - i,
    {
        let x = b[i];
        out.push(x);
        i = i + 1;
    }
    proof {
        if i < len {
            assert(b@[i as int] == 0);
        }
        if i != text_end(b@) {
            if i < text_end(b@) {
                assert(b@[i as int] != 0);
            } else {
                assert(b@[text_end(b@)] == 0);
            }
        }
    }
    out
}

/// The characters a transfer payload decodes to, when its text bytes are
/// valid UTF-8.
pub open spec fn spec_text(b: Seq<u8>) -> Seq<char> {
    decode_utf8(spec_trim_nul(b))
}

/// Relies on `String::from_utf8`: it succeeds exactly when the bytes are a
/// valid UTF-8 encoding, and the returned string is made of those bytes.
#[verifier::external_body]
fn string_from_utf8(bytes: Vec<u8>) -> (r: Option<String>)
    ensures
        r matches Some(s) ==> valid_utf8(bytes@) && encode_utf8(s@) == bytes@,
        r is None ==> !valid_utf8(bytes@),
{
    String::from_utf8(bytes).ok()
}

/// Decodes a transfer payload as text: the bytes before the first NUL,
/// read as UTF-8. A payload whose text bytes are not UTF-8 cannot be
/// decoded.
pub fn decode_text(b: &Vec<u8>) -> (r: Result<String, WatchError>)
    ensures
        valid_utf8(spec_trim_nul(b@)) ==> (r matches Ok(s) && s@ == spec_text(b@)),
        !valid_utf8(spec_trim_nul(b@)) ==> (r matches Err(e) && e == WatchError::DecodeError),
{
    let trimmed = trim_at_nul(b);
    match string_from_utf8(trimmed) {
        Some(s) => {
            proof {
                encode_utf8_decode_utf8(s@);
            }
            Ok(s)
        },
        None => Err(WatchError::DecodeError),
    }
}

} // verus!
