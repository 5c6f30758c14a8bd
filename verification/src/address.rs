//! The addresses that the program owns: each is derived from the program's
//! identity and from seeds that say what the account is for.

use vstd::prelude::*;
use anchor_lang::prelude::Pubkey;
use crate::identity::Identity;

verus! {

/// The program derived address for `seeds` under the program `program_id`,
/// with its bump seed, or `None` where there is none: what
/// `Pubkey::try_find_program_address` computes from the two.
pub uninterp spec fn program_address(seeds: Seq<Seq<u8>>, program_id: Seq<u8>) -> Option<(Seq<u8>, u8)>;

/// The seeds as plain values: the bytes of each, in their order.
pub open spec fn seed_bytes(seeds: Seq<Vec<u8>>) -> Seq<Seq<u8>> {
    Seq::new(seeds.len(), |i: int| seeds[i]@)
}

/// An address and its bump seed as plain values.
pub open spec fn address_view(found: Option<(Identity, u8)>) -> Option<(Seq<u8>, u8)> {
    match found {
        Some((address, bump)) => Some((address@, bump)),
        None => None,
    }
}

/// Calls `Pubkey::try_find_program_address` of anchor_lang (solana_address).
/// It hashes the seeds, a bump seed, the program's identity and a marker, and
/// tries the bump seeds from 255 downwards until the hash is no point of
/// the curve; it returns `None` where no bump seed does, where there are 16
/// seeds or more, or where a seed is longer than 32 bytes. The contract
/// claims only that the result is a function of the seeds and the program's
/// identity, and gives that function its name.
#[verifier::external_body]
fn find_program_address(
    seeds: &Vec<Vec<u8>>,
    program_id: &Identity,
) -> (found: Option<(Identity, u8)>)
    ensures
        address_view(found) == program_address(seed_bytes(seeds@), program_id@),
{
    let parts: Vec<&[u8]> = seeds.iter().map(|seed| seed.as_slice()).collect();
    Pubkey::try_find_program_address(&parts, &Pubkey::new_from_array(program_id.bytes)).map(
        |(address, bump)| (Identity { bytes: address.to_bytes() }, bump),
    )
}

/// The seed that marks the configuration account: the bytes of `escrow`.
pub open spec fn escrow_tag() -> Seq<u8> {
    seq![0x65u8, 0x73u8, 0x63u8, 0x72u8, 0x6fu8, 0x77u8]
}

/// The seed that marks a vault: the bytes of `vault`.
pub open spec fn vault_tag() -> Seq<u8> {
    seq![0x76u8, 0x61u8, 0x75u8, 0x6cu8, 0x74u8]
}

/// The seed that marks a deal: the bytes of `deal`.
pub open spec fn deal_tag() -> Seq<u8> {
    seq![0x64u8, 0x65u8, 0x61u8, 0x6cu8]
}

/// The bytes of `id` as a seed.
fn identity_seed(id: &Identity) -> (seed: Vec<u8>)
    ensures
        seed@ == id@,
{
    let mut seed: Vec<u8> = Vec::new();
    let mut i: usize = 0;
    while i < 32
        invariant
            i <= 32,
            seed@.len() == i,
            forall|j: int| 0 <= j < i ==> seed@[j] == id.bytes@[j],
        decreases 32 - i,
    {
        seed.push(id.bytes[i]);
        i = i + 1;
    }
    assert(seed@ =~= id@);
    seed
}

/// The address of the configuration account of the program `program_id`,
/// with its bump seed: derived from the seed `escrow`.
pub fn get_escrow_address(program_id: &Identity) -> (found: Option<(Identity, u8)>)
    ensures
        address_view(found) == program_address(seq![escrow_tag()], program_id@),
{
    let tag: Vec<u8> = vec![0x65u8, 0x73u8, 0x63u8, 0x72u8, 0x6fu8, 0x77u8];
    assert(tag@ =~= escrow_tag());
    let seeds: Vec<Vec<u8>> = vec![tag];
    assert(seed_bytes(seeds@) =~= seq![escrow_tag()]);
    find_program_address(&seeds, program_id)
}

/// The address of the vault that holds the escrowed funds of the asset
/// `mint`, with its bump seed: derived from the seed `vault` and the asset.
pub fn get_vault_address(
    program_id: &Identity,
    mint: &Identity,
) -> (found: Option<(Identity, u8)>)
    ensures
        address_view(found) == program_address(seq![vault_tag(), mint@], program_id@),
{
    let tag: Vec<u8> = vec![0x76u8, 0x61u8, 0x75u8, 0x6cu8, 0x74u8];
    assert(tag@ =~= vault_tag());
    let seeds: Vec<Vec<u8>> = vec![tag, identity_seed(mint)];
    assert(seed_bytes(seeds@) =~= seq![vault_tag(), mint@]);
    find_program_address(&seeds, program_id)
}

/// The address of the deal between `project_owner` and `kol`, with its bump
/// seed: derived from the seed `deal` and the two parties.
pub fn get_deal_address(
    program_id: &Identity,
    project_owner: &Identity,
    kol: &Identity,
) -> (found: Option<(Identity, u8)>)
    ensures
        address_view(found) == program_address(
            seq![deal_tag(), project_owner@, kol@],
            program_id@,
        ),
{
    let tag: Vec<u8> = vec![0x64u8, 0x65u8, 0x61u8, 0x6cu8];
    assert(tag@ =~= deal_tag());
    let seeds: Vec<Vec<u8>> = vec![tag, identity_seed(project_owner), identity_seed(kol)];
    assert(seed_bytes(seeds@) =~= seq![deal_tag(), project_owner@, kol@]);
    find_program_address(&seeds, program_id)
}

} // verus!
