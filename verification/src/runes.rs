//! Small name values: fixed tag bytes and human-chosen labels.

use crate::sodium::SIGN_LEN;
use crate::sodium::sign_length;
use vstd::prelude::*;

verus! {

/// A one-byte world tag.
#[derive(Clone, Copy)]
pub enum Loudname {
    Earth,
    Ged,
}

impl Loudname {
    /// The tag's byte: zero for `Earth`, `0xff` for `Ged`.
    pub fn rune(&self) -> (r: [u8; 1])
        ensures
            r@ == match self {
                Loudname::Earth => seq![0u8],
                Loudname::Ged => seq![0xffu8],
            },
    {
        match self {
            Loudname::Earth => [0u8],
            Loudname::Ged => [0xffu8],
        }
    }
}

/// A two-byte era tag.
#[derive(Clone, Copy)]
pub enum Eraname {
    Rei,
}

impl Eraname {
    /// The era's two bytes, little endian: `Rei` is zero.
    pub fn runes(&self) -> (r: [u8; 2])
        ensures
            r@ == seq![0u8, 0u8],
    {
        let runes: [u8; 2] = [0u8, 0u8];
        runes
    }
}

/// An immutable byte sequence naming an identity for display.  Its length
/// is strictly greater than 2 and strictly less than the primitive's
/// signature length — the upper bound is inherited from the primitive's
/// buffer size constant, not a property of names.
pub struct Usename {
    runes: Vec<u8>,
}

impl View for Usename {
    type V = Seq<u8>;

    closed spec fn view(&self) -> Seq<u8> {
        self.runes@
    }
}

impl Usename {
    /// The length bounds every name satisfies after construction.
    #[verifier::type_invariant]
    pub open spec fn wf(self) -> bool {
        2 < self@.len() < SIGN_LEN
    }

    /// The name's bytes, exactly as given at construction.
    pub fn runes(&self) -> (r: &Vec<u8>)
        ensures
            r@ == self@,
    {
        &self.runes
    }
}

/// Constructs a name from its bytes.  Inputs of length 2 or shorter, or
/// of the signature length or longer, are rejected; anything strictly
/// between round-trips unchanged.
pub fn usename(runes: &[u8]) -> (r: Option<Usename>)
    ensures
        r is Some <==> 2 < runes@.len() < SIGN_LEN,
        r matches Some(u) ==> u@ == runes@,
{
    if runes.len() <= 2 || runes.len() >= sign_length() {
        return None;
    }
    let owned: Vec<u8> = vstd::slice::slice_to_vec(runes);
    Some(Usename { runes: owned })
}

} // verus!
