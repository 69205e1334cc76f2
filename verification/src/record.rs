//! The line-oriented text form of identity records.
//!
//! A public record is two newline-terminated lines: a fixed header naming
//! the signature scheme, then the standard base64 of the public key.  A
//! secret record appends a third, clearly labelled line with the base64 of
//! the secret key.  No load path exists in this subsystem: records are
//! only ever written.

use crate::sodium::b64_of;
use crate::sodium::base64_standard;
use vstd::prelude::*;

verus! {

/// The fixed header line, `#=Ed.` and a newline.
pub open spec fn spec_header() -> Seq<u8> {
    // the bytes of "#=Ed." and a newline
    seq![0x23u8, 0x3du8, 0x45u8, 0x64u8, 0x2eu8, 0x0au8]
}

/// The label of the public-key line, `Public: `.
pub open spec fn spec_public_label() -> Seq<u8> {
    // the bytes of "Public: "
    seq![0x50u8, 0x75u8, 0x62u8, 0x6cu8, 0x69u8, 0x63u8, 0x3au8, 0x20u8]
}

/// The label of the secret-key line, `SECRET: `.
pub open spec fn spec_secret_label() -> Seq<u8> {
    // the bytes of "SECRET: "
    seq![0x53u8, 0x45u8, 0x43u8, 0x52u8, 0x45u8, 0x54u8, 0x3au8, 0x20u8]
}

/// The public record: header line, then `Public: <base64(public)>`.
pub open spec fn spec_public_record(public: Seq<u8>) -> Seq<u8> {
    spec_header() + spec_public_label() + b64_of(public) + seq![0x0au8]
}

/// The secret record: the public record with `SECRET: <base64(secret)>`
/// appended.
pub open spec fn spec_secret_record(public: Seq<u8>, secret: Seq<u8>) -> Seq<u8> {
    spec_public_record(public) + spec_secret_label() + b64_of(secret) + seq![0x0au8]
}

/// Appends `Public: <base64(public)>` and a newline to `out`.
fn push_public_line(out: &mut Vec<u8>, public: &Vec<u8>)
    ensures
        final(out)@ == old(out)@ + spec_public_label() + b64_of(public@) + seq![0x0au8],
{
    out.push(0x50u8);
    out.push(0x75u8);
    out.push(0x62u8);
    out.push(0x6cu8);
    out.push(0x69u8);
    out.push(0x63u8);
    out.push(0x3au8);
    out.push(0x20u8);
    let mut encoded = base64_standard(public);
    out.append(&mut encoded);
    out.push(0x0au8);
    proof {
        assert(out@ =~= old(out)@ + spec_public_label() + b64_of(public@) + seq![0x0au8]);
    }
}

/// The encoded public record of a public key.
pub fn public_record(public: &Vec<u8>) -> (r: Vec<u8>)
    ensures
        r@ == spec_public_record(public@),
{
    let mut out: Vec<u8> = Vec::new();
    out.push(0x23u8);
    out.push(0x3du8);
    out.push(0x45u8);
    out.push(0x64u8);
    out.push(0x2eu8);
    out.push(0x0au8);
    push_public_line(&mut out, public);
    proof {
        assert(out@ =~= spec_public_record(public@));
    }
    out
}

/// The encoded secret record of a keypair.
pub fn secret_record(public: &Vec<u8>, secret: &Vec<u8>) -> (r: Vec<u8>)
    ensures
        r@ == spec_secret_record(public@, secret@),
{
    let mut out = public_record(public);
    out.push(0x53u8);
    out.push(0x45u8);
    out.push(0x43u8);
    out.push(0x52u8);
    out.push(0x45u8);
    out.push(0x54u8);
    out.push(0x3au8);
    out.push(0x20u8);
    let mut encoded = base64_standard(secret);
    out.append(&mut encoded);
    out.push(0x0au8);
    proof {
        assert(out@ =~= spec_secret_record(public@, secret@));
    }
    out
}

} // verus!
