//! Identities: full keypairs, their public-only projections, and the
//! polymorphic verifying reference over either.
//!
//! A `Truename` holds both halves of a generated signing keypair and can
//! sign; a `Cryptoname` holds only the public half and can merely verify;
//! an `Oldname` wraps either and exposes verification alone, so code that
//! holds one cannot request a signature even when a full keypair is
//! inside.

use crate::record;
use crate::sodium::PUBLIC_KEY_LEN;
use crate::sodium::keypair_valid;
use crate::sodium::sig_of;
use crate::sodium::sig_valid;
use crate::sodium;
use crate::words::Oldword;
use crate::words::Stuff;
use vstd::prelude::*;

verus! {

/// A signature made with the secret half of a keypair verifies under its
/// public half, whatever the payload: signing and verification round-trip.
pub proof fn lemma_sign_verify_round_trip(public: Seq<u8>, secret: Seq<u8>, msg: Seq<u8>)
    requires
        keypair_valid(public, secret),
    ensures
        sig_valid(sig_of(msg, secret), msg, public),
{
}

/// A self-attestation — a keypair's signature over its own public key —
/// verifies under that very public key, so it verifies against the
/// public-only projection of the identity that produced it.
pub proof fn lemma_self_attestation(public: Seq<u8>, secret: Seq<u8>)
    requires
        keypair_valid(public, secret),
    ensures
        sig_valid(sig_of(public, secret), public, public),
{
}

/// A public-only identity: one public key, able to verify signatures and
/// nothing more.
pub struct Cryptoname {
    public: Vec<u8>,
}

impl View for Cryptoname {
    type V = Seq<u8>;

    closed spec fn view(&self) -> Seq<u8> {
        self.public@
    }
}

impl Cryptoname {
    /// The public key always has the primitive's public key length.
    #[verifier::type_invariant]
    pub open spec fn wf(self) -> bool {
        self@.len() == PUBLIC_KEY_LEN
    }

    /// Wraps public key bytes of exactly the primitive's public key
    /// length; anything of another length is refused.
    pub fn from_runes(runes: Vec<u8>) -> (r: Option<Cryptoname>)
        ensures
            r is Some <==> runes@.len() == PUBLIC_KEY_LEN,
            r matches Some(c) ==> c@ == runes@,
    {
        if runes.len() == PUBLIC_KEY_LEN {
            Some(Cryptoname { public: runes })
        } else {
            None
        }
    }

    /// The encoded public record of this identity: header line, then the
    /// base64 of the public key.
    pub fn write(&self) -> (r: Vec<u8>)
        ensures
            r@ == record::spec_public_record(self@),
    {
        record::public_record(&self.public)
    }

    /// Verifies a signature over this identity's own public key bytes: a
    /// self-referential attestation check.
    pub fn know_own_name(&self, word: &Oldword) -> (r: Stuff)
        ensures
            r is Oldspoken <==> sig_valid(word@, self@, self@),
    {
        proof {
            use_type_invariant(self);
            use_type_invariant(word);
        }
        let affirmed = sodium::verify_detached(
            word.runes().as_slice(),
            self.public.as_slice(),
            self.public.as_slice(),
        );
        if affirmed {
            Stuff::Oldspoken
        } else {
            Stuff::Gibberish
        }
    }

    /// Verifies a signature over an arbitrary payload with this
    /// identity's public key.  An invalid signature and a malformed one
    /// are indistinguishable: both come back as gibberish.
    pub fn know(&self, runes: &[u8], word: &Oldword) -> (r: Stuff)
        ensures
            r is Oldspoken <==> sig_valid(word@, runes@, self@),
    {
        proof {
            use_type_invariant(self);
            use_type_invariant(word);
        }
        let affirmed = sodium::verify_detached(
            word.runes().as_slice(),
            runes,
            self.public.as_slice(),
        );
        if affirmed {
            Stuff::Oldspoken
        } else {
            Stuff::Gibberish
        }
    }
}

/// A signing-capable identity: both halves of one generated keypair.  The
/// secret half leaves memory only through `secretly_write`.
pub struct Truename {
    public: Vec<u8>,
    secret: Vec<u8>,
}

impl Truename {
    /// The public key of the identity.
    pub closed spec fn spec_public(self) -> Seq<u8> {
        self.public@
    }

    /// The secret key of the identity.
    pub closed spec fn spec_secret(self) -> Seq<u8> {
        self.secret@
    }

    /// The two halves always form one generated keypair: what the secret
    /// half signs, the public half affirms.
    #[verifier::type_invariant]
    pub open spec fn wf(self) -> bool {
        keypair_valid(self.spec_public(), self.spec_secret())
    }

    /// Generates a fresh identity from the primitive's keypair
    /// generation; `None` only when the primitive fails, a fatal
    /// environment condition rather than a routine error.  The primitive
    /// must already be initialized — the one-time, process-wide step the
    /// embedding application performs, behind its own guard, when it
    /// carries out the opening of the store — an ordering no contract
    /// here can express, since it is process state.
    pub fn generate() -> (r: Option<Truename>)
        ensures
            r matches Some(t) ==> keypair_valid(t.spec_public(), t.spec_secret()),
    {
        match sodium::gen_keypair() {
            Some(kp) => Some(Truename { public: kp.0, secret: kp.1 }),
            None => None,
        }
    }

    /// The encoded secret record of this identity: the public record with
    /// the labelled base64 of the secret key appended.  This is the only
    /// path by which secret material leaves memory as text; the caller
    /// must restrict the sink's permissions before writing a byte of it.
    pub fn secretly_write(&self) -> (r: Vec<u8>)
        ensures
            r@ == record::spec_secret_record(self.spec_public(), self.spec_secret()),
    {
        record::secret_record(&self.public, &self.secret)
    }

    /// The public-only projection: a lossless copy of the public half,
    /// with no signing capability.
    pub fn cryptoname(&self) -> (r: Cryptoname)
        ensures
            r@ == self.spec_public(),
    {
        proof {
            use_type_invariant(self);
        }
        Cryptoname { public: self.public.clone() }
    }

    /// Verifies a signature over this identity's own public key bytes.
    pub fn know_own_name(&self, word: &Oldword) -> (r: Stuff)
        ensures
            r is Oldspoken <==> sig_valid(word@, self.spec_public(), self.spec_public()),
    {
        proof {
            use_type_invariant(self);
            use_type_invariant(word);
        }
        let affirmed = sodium::verify_detached(
            word.runes().as_slice(),
            self.public.as_slice(),
            self.public.as_slice(),
        );
        if affirmed {
            Stuff::Oldspoken
        } else {
            Stuff::Gibberish
        }
    }

    /// Verifies a signature over an arbitrary payload with this
    /// identity's public key.
    pub fn know(&self, runes: &[u8], word: &Oldword) -> (r: Stuff)
        ensures
            r is Oldspoken <==> sig_valid(word@, runes@, self.spec_public()),
    {
        proof {
            use_type_invariant(self);
            use_type_invariant(word);
        }
        let affirmed = sodium::verify_detached(
            word.runes().as_slice(),
            runes,
            self.public.as_slice(),
        );
        if affirmed {
            Stuff::Oldspoken
        } else {
            Stuff::Gibberish
        }
    }

    /// Signs this identity's own public key bytes: a self-attestation,
    /// a lightweight proof of possession of the secret key.
    pub fn speak_own_name(&self) -> (w: Oldword)
        ensures
            w@ == sig_of(self.spec_public(), self.spec_secret()),
            sig_valid(w@, self.spec_public(), self.spec_public()),
    {
        proof {
            use_type_invariant(self);
        }
        let sig = sodium::sign_detached(self.public.as_slice(), &self.secret);
        proof {
            lemma_self_attestation(self.spec_public(), self.spec_secret());
        }
        Oldword::spoken(sig)
    }

    /// Signs an arbitrary payload with this identity's secret key, and
    /// returns the spoken word holding the signature.  It verifies under
    /// this identity's public key.
    pub fn speak(&self, runes: &[u8]) -> (w: Oldword)
        ensures
            w@ == sig_of(runes@, self.spec_secret()),
            sig_valid(w@, runes@, self.spec_public()),
    {
        proof {
            use_type_invariant(self);
        }
        let sig = sodium::sign_detached(runes, &self.secret);
        proof {
            lemma_sign_verify_round_trip(self.spec_public(), self.spec_secret(), runes@);
        }
        Oldword::spoken(sig)
    }
}

/// A polymorphic verifying reference: something with a public key to
/// check signatures against, whether or not a secret half sits behind it.
/// No signing capability is exposed, even when a full keypair is wrapped.
pub enum Oldname {
    True(Truename),
    Crypto(Cryptoname),
}

impl Oldname {
    /// The public key of whichever identity is wrapped.
    pub open spec fn spec_public(self) -> Seq<u8> {
        match self {
            Oldname::True(truename) => truename.spec_public(),
            Oldname::Crypto(cryptoname) => cryptoname@,
        }
    }

    /// The wrapped identity's public key bytes.
    fn _public(&self) -> (r: &Vec<u8>)
        ensures
            r@ == self.spec_public(),
            r@.len() == PUBLIC_KEY_LEN,
    {
        match self {
            Oldname::True(truename) => {
                proof {
                    use_type_invariant(truename);
                }
                &truename.public
            },
            Oldname::Crypto(cryptoname) => {
                proof {
                    use_type_invariant(cryptoname);
                }
                &cryptoname.public
            },
        }
    }

    /// Verifies a signature over the wrapped identity's own public key
    /// bytes.
    pub fn know_own_name(&self, word: &Oldword) -> (r: Stuff)
        ensures
            r is Oldspoken <==> sig_valid(word@, self.spec_public(), self.spec_public()),
    {
        proof {
            use_type_invariant(word);
        }
        let public = self._public();
        let affirmed = sodium::verify_detached(
            word.runes().as_slice(),
            public.as_slice(),
            public.as_slice(),
        );
        if affirmed {
            Stuff::Oldspoken
        } else {
            Stuff::Gibberish
        }
    }

    /// Verifies a signature over an arbitrary payload with the wrapped
    /// identity's public key.
    pub fn know(&self, runes: &[u8], word: &Oldword) -> (r: Stuff)
        ensures
            r is Oldspoken <==> sig_valid(word@, runes@, self.spec_public()),
    {
        proof {
            use_type_invariant(word);
        }
        let public = self._public();
        let affirmed = sodium::verify_detached(
            word.runes().as_slice(),
            runes,
            public.as_slice(),
        );
        if affirmed {
            Stuff::Oldspoken
        } else {
            Stuff::Gibberish
        }
    }
}

} // verus!
