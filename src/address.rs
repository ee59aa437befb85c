//! Canonical addressing: where the oracle record lives.
//!
//! The record's address is a program-derived address: a function of a fixed
//! seed, a one-byte bump and the program id, computed by Solana's
//! `Pubkey` routines (through `anchor_lang`). Anyone can recompute it.
use vstd::prelude::*;
use crate::identity::Identity;

verus! {

/// What `Pubkey::try_find_program_address(&[seed], program_id)` returns, as
/// the derived address's bytes and its bump.
pub uninterp spec fn found_program_address(seed: Seq<u8>, program_id: Seq<u8>) -> Option<(Seq<u8>, u8)>;

/// What `Pubkey::create_program_address(&[seed, &[bump]], program_id)` returns:
/// the derived address's bytes, or `None` on an error.
pub uninterp spec fn created_program_address(seed: Seq<u8>, bump: u8, program_id: Seq<u8>) -> Option<Seq<u8>>;

/// The fixed namespace seed of the oracle record: the bytes of `b"oracle"`.
pub open spec fn oracle_seed() -> Seq<u8> {
    seq![111u8, 114u8, 97u8, 99u8, 108u8, 101u8]
}

/// The view of a derived address paired with its bump.
pub open spec fn pair_view(r: Option<(Identity, u8)>) -> Option<(Seq<u8>, u8)> {
    match r {
        Some((a, b)) => Some((a@, b)),
        None => None,
    }
}

/// The view of an optional identity.
pub open spec fn option_view(r: Option<Identity>) -> Option<Seq<u8>> {
    match r {
        Some(a) => Some(a@),
        None => None,
    }
}

/// Relies on `Pubkey::try_find_program_address` (solana-program, re-exported by
/// anchor_lang): the first bump, counting down from 255, for which the seed, the
/// bump and the program id hash to a point off the ed25519 curve, with that
/// address. It returns what `create_program_address` returned for that bump.
#[verifier::external_body]
fn try_find_program_address(seed: &[u8], program_id: &Identity) -> (r: Option<(Identity, u8)>)
    ensures
        pair_view(r) == found_program_address(seed@, program_id@),
        r matches Some((a, b)) ==> created_program_address(seed@, b, program_id@) == Some(a@),
{
    let key = anchor_lang::prelude::Pubkey::new_from_array(program_id.bytes);
    match anchor_lang::prelude::Pubkey::try_find_program_address(&[seed], &key) {
        Some((address, bump)) => Some((Identity::new(address.to_bytes()), bump)),
        None => None,
    }
}

/// Relies on `Pubkey::create_program_address` (solana-program, re-exported by
/// anchor_lang): the address that the seed, the bump and the program id derive,
/// or an error where none does.
#[verifier::external_body]
fn create_program_address(seed: &[u8], bump: u8, program_id: &Identity) -> (r: Option<Identity>)
    ensures
        option_view(r) == created_program_address(seed@, bump, program_id@),
{
    let key = anchor_lang::prelude::Pubkey::new_from_array(program_id.bytes);
    match anchor_lang::prelude::Pubkey::create_program_address(&[seed, &[bump]], &key) {
        Ok(address) => Some(Identity::new(address.to_bytes())),
        Err(_) => None,
    }
}

/// The oracle's namespace seed, `b"oracle"`.
fn oracle_seed_bytes() -> (r: Vec<u8>)
    ensures
        r@ == oracle_seed(),
{
    let r: Vec<u8> = vec![111u8, 114u8, 97u8, 99u8, 108u8, 101u8];
    assert(r@ =~= oracle_seed());
    r
}

/// The canonical address of the oracle record of `program_id`, with the bump
/// that derives it; `None` where no bump does.
pub fn oracle_address(program_id: &Identity) -> (r: Option<(Identity, u8)>)
    ensures
        pair_view(r) == found_program_address(oracle_seed(), program_id@),
        r matches Some((a, b)) ==> created_program_address(oracle_seed(), b, program_id@) == Some(a@),
{
    let seed = oracle_seed_bytes();
    try_find_program_address(seed.as_slice(), program_id)
}

/// The address that the oracle seed and `bump` derive for `program_id`, if any.
pub fn oracle_address_with_bump(program_id: &Identity, bump: u8) -> (r: Option<Identity>)
    ensures
        option_view(r) == created_program_address(oracle_seed(), bump, program_id@),
{
    let seed = oracle_seed_bytes();
    create_program_address(seed.as_slice(), bump, program_id)
}

} // verus!
