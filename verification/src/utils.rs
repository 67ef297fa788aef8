//! Small helpers: the admin identity, decoded from its base58 spelling.

use crate::keys::Pubkey;
use vstd::prelude::*;

verus! {

/// The one-byte type tag that tells the record kinds apart.
pub enum AccTypes {
    BorrowerAcc,
    LendersAcc,
    GuarantorAcc,
    LoanInfoAcc,
}

impl AccTypes {
    pub open spec fn spec_tag(self) -> u8 {
        match self {
            AccTypes::BorrowerAcc => 2,
            AccTypes::LendersAcc => 3,
            AccTypes::GuarantorAcc => 4,
            AccTypes::LoanInfoAcc => 5,
        }
    }

    pub fn tag(self) -> (t: u8)
        ensures
            t == self.spec_tag(),
    {
        match self {
            AccTypes::BorrowerAcc => 2,
            AccTypes::LendersAcc => 3,
            AccTypes::GuarantorAcc => 4,
            AccTypes::LoanInfoAcc => 5,
        }
    }
}

/// The bytes that the base58 string `s` decodes to, when it is a valid
/// base58 spelling.  The result depends on the string alone.
pub uninterp spec fn base58_decode_of(s: Seq<char>) -> Seq<u8>;

/// The admin's identity.  Relies on `bs58::decode(..).into_vec()`: base58
/// decoding is a pure function of the characters, every character of this
/// fixed spelling is in the base58 alphabet, and its 43 digits decode to
/// exactly 32 bytes, so the call never fails and the fallback arm is
/// unreachable.
#[verifier::external_body]
pub fn get_admin_pubkey() -> (r: Pubkey)
    ensures
        r@ == base58_decode_of("857Tm9dNi6Ypur9zCcJ9oAhqYd3bE6J6s2ww77PKCSa"@),
        r.wf(),
{
    let bytes = match bs58::decode("857Tm9dNi6Ypur9zCcJ9oAhqYd3bE6J6s2ww77PKCSa").into_vec() {
        Ok(v) => v,
        Err(_) => Vec::new(),
    };
    Pubkey { bytes }
}

} // verus!
