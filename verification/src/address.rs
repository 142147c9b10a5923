//! Deterministic address binding. Each sub-resource (vault, treasury,
//! proposal, batch, stream, vesting record) lives at an address the host
//! derives from a stable tuple of purpose tag, owner keys and numeric id.
//! This module owns those tuples: one seed-builder per record kind, whose
//! contract pins every byte of every seed, so each tuple is written once and
//! every instruction that touches the record recomputes its address from the
//! same inputs. The digest over the seeds is the runtime's own work; the
//! guard [`assert_matches`] then rejects any call whose supplied account
//! address differs from the derived one, so a caller cannot substitute a
//! forged record for the real one.
use vstd::prelude::*;

use vstd::bytes::{spec_u64_to_le_bytes, u64_to_le_bytes};
use vstd::slice::slice_to_vec;
use vstd::string::StringSliceAdditionalSpecFns;

use crate::errors::TreasuryError;
use crate::keys::{pubkey_eq, Pubkey};

verus! {

/// Rejects the call unless the supplied address equals the derived one.
pub fn assert_matches(derived: &Pubkey, supplied: &Pubkey) -> (r: Result<(), TreasuryError>)
    ensures
        r is Ok <==> derived@ == supplied@,
        r is Err ==> r == Err::<(), TreasuryError>(TreasuryError::AddressMismatch),
{
    if pubkey_eq(derived, supplied) {
        Ok(())
    } else {
        Err(TreasuryError::AddressMismatch)
    }
}

/// Copies an address into an owned seed.
fn key_seed(k: &Pubkey) -> (r: Vec<u8>)
    ensures
        r@ == k@,
{
    slice_to_vec(k.as_slice())
}

/// The binding tuple of a vault record: the purpose tag, the admin's
/// address, and the vault's numeric id.
pub fn multisig_info_seeds(admin: &Pubkey, multisig_id: u64) -> (r: Vec<Vec<u8>>)
    ensures
        r@.len() == 3,
        r@[0]@ == "multisig_info".spec_bytes(),
        r@[1]@ == admin@,
        r@[2]@ == spec_u64_to_le_bytes(multisig_id),
{
    let mut seeds: Vec<Vec<u8>> = Vec::new();
    seeds.push(slice_to_vec("multisig_info".as_bytes()));
    seeds.push(key_seed(admin));
    seeds.push(u64_to_le_bytes(multisig_id));
    seeds
}

/// The binding tuple of a vault's treasury: the purpose tag, the mint, and
/// the vault record's derived address. Every instruction that touches the
/// treasury recomputes its address from this same tuple.
pub fn treasury_vault_seeds(mint: &Pubkey, multisig_info: &Pubkey) -> (r: Vec<Vec<u8>>)
    ensures
        r@.len() == 3,
        r@[0]@ == "multisig_vault".spec_bytes(),
        r@[1]@ == mint@,
        r@[2]@ == multisig_info@,
{
    let mut seeds: Vec<Vec<u8>> = Vec::new();
    seeds.push(slice_to_vec("multisig_vault".as_bytes()));
    seeds.push(key_seed(mint));
    seeds.push(key_seed(multisig_info));
    seeds
}

/// The binding tuple of a proposal record: the purpose tag and the numeric
/// ids of the proposal and its vault.
pub fn stream_proposal_seeds(proposal_id: u64, multisig_id: u64) -> (r: Vec<Vec<u8>>)
    ensures
        r@.len() == 3,
        r@[0]@ == "stream_proposal".spec_bytes(),
        r@[1]@ == spec_u64_to_le_bytes(proposal_id),
        r@[2]@ == spec_u64_to_le_bytes(multisig_id),
{
    let mut seeds: Vec<Vec<u8>> = Vec::new();
    seeds.push(slice_to_vec("stream_proposal".as_bytes()));
    seeds.push(u64_to_le_bytes(proposal_id));
    seeds.push(u64_to_le_bytes(multisig_id));
    seeds
}

/// The binding tuple of a payment stream record: the purpose tag, the
/// sender and the recipient.
pub fn payment_stream_seeds(sender: &Pubkey, recipient: &Pubkey) -> (r: Vec<Vec<u8>>)
    ensures
        r@.len() == 3,
        r@[0]@ == "payment_stream_info".spec_bytes(),
        r@[1]@ == sender@,
        r@[2]@ == recipient@,
{
    let mut seeds: Vec<Vec<u8>> = Vec::new();
    seeds.push(slice_to_vec("payment_stream_info".as_bytes()));
    seeds.push(key_seed(sender));
    seeds.push(key_seed(recipient));
    seeds
}

/// The binding tuple of a vesting contract record: the fixed 32-byte
/// company tag and the creator's address.
pub fn vesting_contract_seeds(company_name: &Vec<u8>, creator: &Pubkey) -> (r: Vec<Vec<u8>>)
    ensures
        r@.len() == 2,
        r@[0]@ == company_name@,
        r@[1]@ == creator@,
{
    let mut seeds: Vec<Vec<u8>> = Vec::new();
    seeds.push(slice_to_vec(company_name.as_slice()));
    seeds.push(key_seed(creator));
    seeds
}

/// The binding tuple of a beneficiary's vesting record: the purpose tag,
/// the vesting contract record's derived address, and the beneficiary.
pub fn vesting_record_seeds(vesting_contract: &Pubkey, beneficiary: &Pubkey) -> (r: Vec<
    Vec<u8>,
>)
    ensures
        r@.len() == 3,
        r@[0]@ == "vesting_record_info".spec_bytes(),
        r@[1]@ == vesting_contract@,
        r@[2]@ == beneficiary@,
{
    let mut seeds: Vec<Vec<u8>> = Vec::new();
    seeds.push(slice_to_vec("vesting_record_info".as_bytes()));
    seeds.push(key_seed(vesting_contract));
    seeds.push(key_seed(beneficiary));
    seeds
}

/// The binding tuple of a vesting vault: the purpose tag, the mint and the
/// creator.
pub fn vesting_vault_seeds(mint: &Pubkey, creator: &Pubkey) -> (r: Vec<Vec<u8>>)
    ensures
        r@.len() == 3,
        r@[0]@ == "vault".spec_bytes(),
        r@[1]@ == mint@,
        r@[2]@ == creator@,
{
    let mut seeds: Vec<Vec<u8>> = Vec::new();
    seeds.push(slice_to_vec("vault".as_bytes()));
    seeds.push(key_seed(mint));
    seeds.push(key_seed(creator));
    seeds
}

/// The binding tuple of a company's token account: the mint and the
/// creator, with no purpose tag.
pub fn company_token_seeds(mint: &Pubkey, creator: &Pubkey) -> (r: Vec<Vec<u8>>)
    ensures
        r@.len() == 2,
        r@[0]@ == mint@,
        r@[1]@ == creator@,
{
    let mut seeds: Vec<Vec<u8>> = Vec::new();
    seeds.push(key_seed(mint));
    seeds.push(key_seed(creator));
    seeds
}

/// The binding tuple of a beneficiary's token account: the beneficiary and
/// the mint, with no purpose tag.
pub fn beneficiary_token_seeds(beneficiary: &Pubkey, mint: &Pubkey) -> (r: Vec<Vec<u8>>)
    ensures
        r@.len() == 2,
        r@[0]@ == beneficiary@,
        r@[1]@ == mint@,
{
    let mut seeds: Vec<Vec<u8>> = Vec::new();
    seeds.push(key_seed(beneficiary));
    seeds.push(key_seed(mint));
    seeds
}

/// The binding tuple of a batch progress record: the purpose tag, the
/// creator, the mint and the batch's numeric id.
pub fn batch_state_seeds(creator: &Pubkey, mint: &Pubkey, batch_id: u64) -> (r: Vec<Vec<u8>>)
    ensures
        r@.len() == 4,
        r@[0]@ == "batch_state".spec_bytes(),
        r@[1]@ == creator@,
        r@[2]@ == mint@,
        r@[3]@ == spec_u64_to_le_bytes(batch_id),
{
    let mut seeds: Vec<Vec<u8>> = Vec::new();
    seeds.push(slice_to_vec("batch_state".as_bytes()));
    seeds.push(key_seed(creator));
    seeds.push(key_seed(mint));
    seeds.push(u64_to_le_bytes(batch_id));
    seeds
}

/// The binding tuple of a batch creator's token account: the purpose tag,
/// the creator and the mint.
pub fn creator_token_seeds(creator: &Pubkey, mint: &Pubkey) -> (r: Vec<Vec<u8>>)
    ensures
        r@.len() == 3,
        r@[0]@ == "creator_token_account".spec_bytes(),
        r@[1]@ == creator@,
        r@[2]@ == mint@,
{
    let mut seeds: Vec<Vec<u8>> = Vec::new();
    seeds.push(slice_to_vec("creator_token_account".as_bytes()));
    seeds.push(key_seed(creator));
    seeds.push(key_seed(mint));
    seeds
}

/// The binding tuple of a batch recipient list: the purpose tag and the
/// batch progress record's derived address.
pub fn batch_transfer_seeds(batch_state: &Pubkey) -> (r: Vec<Vec<u8>>)
    ensures
        r@.len() == 2,
        r@[0]@ == "batch_transfer".spec_bytes(),
        r@[1]@ == batch_state@,
{
    let mut seeds: Vec<Vec<u8>> = Vec::new();
    seeds.push(slice_to_vec("batch_transfer".as_bytes()));
    seeds.push(key_seed(batch_state));
    seeds
}

/// The binding tuple of a direct transfer's receiving account: the purpose
/// tag, the recipient and the mint. The tag keeps the record's historical
/// spelling: changing it would move every already-derived receiving
/// account.
pub fn recipient_token_seeds(recipient: &Pubkey, mint: &Pubkey) -> (r: Vec<Vec<u8>>)
    ensures
        r@.len() == 3,
        r@[0]@ == "recepient_token_account".spec_bytes(),
        r@[1]@ == recipient@,
        r@[2]@ == mint@,
{
    let mut seeds: Vec<Vec<u8>> = Vec::new();
    seeds.push(slice_to_vec("recepient_token_account".as_bytes()));
    seeds.push(key_seed(recipient));
    seeds.push(key_seed(mint));
    seeds
}

} // verus!
