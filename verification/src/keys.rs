//! 32-byte account identities and the engine's derived signing authorities.
//!
//! Every party (lender, borrower, guarantor, vault, program) is named by a
//! 32-byte public key.  The engine itself controls two derived authorities,
//! one for the lending vault and one for the airdrop vault; debits from a
//! vault are only honoured when its owner equals the matching derived
//! address.

use crate::buffer::{bytes_eq, copy_range};
use crate::error::DassiError;
use vstd::prelude::*;
use vstd::slice::slice_to_vec;

verus! {

/// A 32-byte account identity.
#[derive(Debug, PartialEq, Eq)]
pub struct Pubkey {
    pub bytes: Vec<u8>,
}

impl View for Pubkey {
    type V = Seq<u8>;

    open spec fn view(&self) -> Seq<u8> {
        self.bytes@
    }
}

impl Pubkey {
    /// A well-formed key holds exactly 32 bytes.
    pub open spec fn wf(&self) -> bool {
        self@.len() == 32
    }

    pub fn new_from_array(a: [u8; 32]) -> (r: Pubkey)
        ensures
            r@ == a@,
            r.wf(),
    {
        Pubkey { bytes: slice_to_vec(vstd::array::array_as_slice(&a)) }
    }

    /// Builds a key from a vector that holds exactly 32 bytes.
    pub fn from_bytes(bytes: Vec<u8>) -> (r: Result<Pubkey, DassiError>)
        ensures
            match r {
                Ok(p) => p@ == bytes@ && p.wf(),
                Err(e) => e == DassiError::InvalidAccountData && bytes@.len() != 32,
            },
    {
        if bytes.len() == 32 {
            Ok(Pubkey { bytes })
        } else {
            Err(DassiError::InvalidAccountData)
        }
    }

    pub fn clone_key(&self) -> (r: Pubkey)
        ensures
            r@ == self@,
            self.wf() ==> r.wf(),
    {
        Pubkey { bytes: copy_range(self.bytes.as_slice(), 0, self.bytes.len()) }
    }

    pub fn key_eq(&self, other: &Pubkey) -> (r: bool)
        ensures
            r == (self@ == other@),
    {
        bytes_eq(self.bytes.as_slice(), other.bytes.as_slice())
    }
}

/// The address that the host derives for `seed` on behalf of `program_id`,
/// when the derivation succeeds.  The result depends on the seed and the
/// program identity alone.
pub uninterp spec fn program_address_of(seed: Seq<u8>, program_id: Seq<u8>) -> Seq<u8>;

/// Whether the host's bump search finds a derived address for `seed` and
/// `program_id`.  Like the address itself, this depends on the two
/// arguments alone.
pub uninterp spec fn program_address_derivable(seed: Seq<u8>, program_id: Seq<u8>) -> bool;

/// The address that the host derives from a base key, an ASCII seed string
/// and an owning program.  The result depends on the three arguments alone.
pub uninterp spec fn address_with_seed_of(base: Seq<u8>, seed: Seq<char>, owner: Seq<u8>) -> Seq<
    u8,
>;

/// The last 21 bytes of `owner` spell the host's derived-address marker,
/// the one shape of owner for which seeded derivation is refused.
pub open spec fn pda_marker_suffixed(owner: Seq<u8>) -> bool {
    owner.len() >= 21 && owner.subrange(owner.len() - 21, owner.len() as int) == seq![
        80u8,
        114u8,
        111u8,
        103u8,
        114u8,
        97u8,
        109u8,
        68u8,
        101u8,
        114u8,
        105u8,
        118u8,
        101u8,
        100u8,
        65u8,
        100u8,
        100u8,
        114u8,
        101u8,
        115u8,
        115u8,
    ]
}

/// Relies on `solana_program::pubkey::Pubkey::try_find_program_address`:
/// a deterministic digest search over the seed and the program id, which
/// succeeds or fails as a function of those two alone; a found address is
/// 32 bytes long.
#[verifier::external_body]
fn try_derive_program_address(seed: &Vec<u8>, program_id: &Pubkey) -> (r: Option<Pubkey>)
    requires
        program_id.wf(),
    ensures
        (r is Some) == program_address_derivable(seed@, program_id@),
        r matches Some(p) ==> p@ == program_address_of(seed@, program_id@) && p.wf(),
{
    let pid = match solana_program::pubkey::Pubkey::try_from(program_id.bytes.as_slice()) {
        Ok(k) => k,
        Err(_) => return None,
    };
    match solana_program::pubkey::Pubkey::try_find_program_address(&[seed.as_slice()], &pid) {
        Some((addr, _bump)) => Some(Pubkey { bytes: addr.to_bytes().to_vec() }),
        None => None,
    }
}

/// Relies on `solana_program::pubkey::Pubkey::create_with_seed`: the
/// derived address is a deterministic digest of the base key, the seed
/// string and the owner, and is 32 bytes long.  The call fails only for a
/// seed over 32 bytes — the airdrop seed is 19 ASCII bytes — or for an
/// owner whose last 21 bytes spell the derived-address marker.
#[verifier::external_body]
fn try_address_with_seed(base: &Pubkey, seed: &str, owner: &Pubkey) -> (r: Option<Pubkey>)
    requires
        base.wf(),
        owner.wf(),
    ensures
        r matches Some(p) ==> p@ == address_with_seed_of(base@, seed@, owner@) && p.wf(),
        seed@ == "DassiFinanceAirdrop"@ ==> ((r is Some) == !pda_marker_suffixed(owner@)),
{
    let b = match solana_program::pubkey::Pubkey::try_from(base.bytes.as_slice()) {
        Ok(k) => k,
        Err(_) => return None,
    };
    let o = match solana_program::pubkey::Pubkey::try_from(owner.bytes.as_slice()) {
        Ok(k) => k,
        Err(_) => return None,
    };
    match solana_program::pubkey::Pubkey::create_with_seed(&b, seed, &o) {
        Ok(a) => Some(Pubkey { bytes: a.to_bytes().to_vec() }),
        Err(_) => None,
    }
}

/// The ASCII bytes of `"DassiFinance"`, the lending vault's seed.
pub open spec fn spec_lending_seed() -> Seq<u8> {
    seq![68u8, 97u8, 115u8, 115u8, 105u8, 70u8, 105u8, 110u8, 97u8, 110u8, 99u8, 101u8]
}

/// The ASCII bytes of `"DassiFinanceAirdrop"`, the airdrop vault's seed.
pub open spec fn spec_airdrop_seed() -> Seq<u8> {
    spec_lending_seed() + seq![65u8, 105u8, 114u8, 100u8, 114u8, 111u8, 112u8]
}

/// The seed of the lending vault's authority.
pub fn lending_authority_seed() -> (r: Vec<u8>)
    ensures
        r@ == spec_lending_seed(),
{
    let mut v: Vec<u8> = Vec::new();
    v.push(68);
    v.push(97);
    v.push(115);
    v.push(115);
    v.push(105);
    v.push(70);
    v.push(105);
    v.push(110);
    v.push(97);
    v.push(110);
    v.push(99);
    v.push(101);
    proof {
        assert(v@ =~= spec_lending_seed());
    }
    v
}

/// The seed of the airdrop vault's authority.
pub fn airdrop_authority_seed() -> (r: Vec<u8>)
    ensures
        r@ == spec_airdrop_seed(),
{
    let mut v = lending_authority_seed();
    v.push(65);
    v.push(105);
    v.push(114);
    v.push(100);
    v.push(114);
    v.push(111);
    v.push(112);
    proof {
        assert(v@ =~= spec_airdrop_seed());
    }
    v
}

/// `key` is the derived lending-vault authority of `program_id`: the
/// derivation succeeds and yields exactly `key`.
pub open spec fn is_lending_authority(key: Seq<u8>, program_id: Seq<u8>) -> bool {
    program_address_derivable(spec_lending_seed(), program_id) && key == program_address_of(
        spec_lending_seed(),
        program_id,
    )
}

/// `key` is the derived airdrop-vault authority of `program_id`.
pub open spec fn is_airdrop_authority(key: Seq<u8>, program_id: Seq<u8>) -> bool {
    program_address_derivable(spec_airdrop_seed(), program_id) && key == program_address_of(
        spec_airdrop_seed(),
        program_id,
    )
}

/// Accepts `vault_owner` exactly when it is the derived lending-vault
/// authority of `program_id`.
pub fn check_lending_vault_authority(vault_owner: &Pubkey, program_id: &Pubkey) -> (r: Result<
    (),
    DassiError,
>)
    requires
        program_id.wf(),
    ensures
        match r {
            Ok(()) => is_lending_authority(vault_owner@, program_id@),
            Err(e) => e == DassiError::DassiVaultAccountDoesNotMatched && !is_lending_authority(
                vault_owner@,
                program_id@,
            ),
        },
{
    let seed = lending_authority_seed();
    match try_derive_program_address(&seed, program_id) {
        Some(pda) => {
            if vault_owner.key_eq(&pda) {
                Ok(())
            } else {
                Err(DassiError::DassiVaultAccountDoesNotMatched)
            }
        },
        None => Err(DassiError::DassiVaultAccountDoesNotMatched),
    }
}

/// Accepts `supplied` exactly when it is the derived lending-vault
/// authority of `program_id`.
pub fn check_pda_account(supplied: &Pubkey, program_id: &Pubkey) -> (r: Result<(), DassiError>)
    requires
        program_id.wf(),
    ensures
        match r {
            Ok(()) => is_lending_authority(supplied@, program_id@),
            Err(e) => e == DassiError::PdaAccountDoesNotMatched && !is_lending_authority(
                supplied@,
                program_id@,
            ),
        },
{
    let seed = lending_authority_seed();
    match try_derive_program_address(&seed, program_id) {
        Some(pda) => {
            if supplied.key_eq(&pda) {
                Ok(())
            } else {
                Err(DassiError::PdaAccountDoesNotMatched)
            }
        },
        None => Err(DassiError::PdaAccountDoesNotMatched),
    }
}

/// Accepts `supplied` exactly when it is the derived airdrop-vault
/// authority of `program_id`.
pub fn check_airdrop_pda_account(supplied: &Pubkey, program_id: &Pubkey) -> (r: Result<
    (),
    DassiError,
>)
    requires
        program_id.wf(),
    ensures
        match r {
            Ok(()) => is_airdrop_authority(supplied@, program_id@),
            Err(e) => e == DassiError::PdaAccountDoesNotMatched && !is_airdrop_authority(
                supplied@,
                program_id@,
            ),
        },
{
    let seed = airdrop_authority_seed();
    match try_derive_program_address(&seed, program_id) {
        Some(pda) => {
            if supplied.key_eq(&pda) {
                Ok(())
            } else {
                Err(DassiError::PdaAccountDoesNotMatched)
            }
        },
        None => Err(DassiError::PdaAccountDoesNotMatched),
    }
}

/// The address that the airdrop record of `user` must live at: defined
/// for every program identity except the marker-suffixed ones, for which
/// the host refuses to derive.
pub fn expected_airdrop_storage_key(user: &Pubkey, program_id: &Pubkey) -> (r: Option<Pubkey>)
    requires
        user.wf(),
        program_id.wf(),
    ensures
        (r is Some) == !pda_marker_suffixed(program_id@),
        r matches Some(p) ==> p@ == address_with_seed_of(
            user@,
            "DassiFinanceAirdrop"@,
            program_id@,
        ) && p.wf(),
{
    try_address_with_seed(user, "DassiFinanceAirdrop", program_id)
}

} // verus!
