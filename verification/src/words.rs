//! Signature values and verification verdicts.

use crate::sodium::SIGN_LEN;
use vstd::prelude::*;

verus! {

/// The two-valued outcome of verifying a signature: either the word was
/// spoken by the identity it is checked against, or it is gibberish.  An
/// invalid signature, a malformed one and a primitive failure are
/// deliberately indistinguishable.
#[derive(Clone, Copy, Debug, PartialEq, Eq, Structural)]
pub enum Stuff {
    Oldspoken,
    Gibberish,
}

/// A fixed-size buffer holding a detached signature.  A newly allocated
/// word is silent (all zero); a word returned by a sign operation carries
/// the produced signature.  Its length is always the primitive's
/// signature length.
pub struct Oldword {
    word: Vec<u8>,
}

impl View for Oldword {
    type V = Seq<u8>;

    closed spec fn view(&self) -> Seq<u8> {
        self.word@
    }
}

impl Oldword {
    /// Every word has exactly the primitive's signature length.
    #[verifier::type_invariant]
    pub open spec fn wf(self) -> bool {
        self@.len() == SIGN_LEN
    }

    /// A silent word: freshly allocated, all zero, not a valid signature
    /// of anything in particular.
    pub fn silent() -> (w: Oldword)
        ensures
            w@ == Seq::new(SIGN_LEN as nat, |i: int| 0u8),
    {
        let word: Vec<u8> = vec![0u8; SIGN_LEN];
        proof {
            assert(word@ =~= Seq::new(SIGN_LEN as nat, |i: int| 0u8));
        }
        Oldword { word }
    }

    /// The signature bytes the word holds.
    pub fn runes(&self) -> (r: &Vec<u8>)
        ensures
            r@ == self@,
    {
        &self.word
    }

    /// Wraps signature bytes of exactly the primitive's signature length;
    /// anything of another length is refused.
    pub fn from_runes(runes: Vec<u8>) -> (r: Option<Oldword>)
        ensures
            r is Some <==> runes@.len() == SIGN_LEN,
            r matches Some(w) ==> w@ == runes@,
    {
        if runes.len() == SIGN_LEN {
            Some(Oldword { word: runes })
        } else {
            None
        }
    }

    /// Wraps the bytes a sign operation produced.
    pub(crate) fn spoken(runes: Vec<u8>) -> (w: Oldword)
        requires
            runes@.len() == SIGN_LEN,
        ensures
            w@ == runes@,
    {
        Oldword { word: runes }
    }
}

} // verus!
