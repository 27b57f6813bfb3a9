use vstd::prelude::*;
use vstd::bytes::{spec_u64_to_le_bytes, u64_to_le_bytes};
use anchor_lang::prelude::Pubkey;

verus! {

/// Identity of the program that owns the registry. Every address is derived
/// under it.
pub const PROGRAM_ID: [u8; 32] = [
    190, 105, 203, 72, 207, 249, 62, 1, 69, 92, 36, 139, 183, 64, 113, 154, 214, 62, 154, 121,
    184, 246, 19, 102, 176, 211, 101, 29, 70, 174, 196, 249,
];

/// First seed of every record address: the bytes of the word "incident".
pub const SEED_PREFIX: [u8; 8] = [105, 110, 99, 105, 100, 101, 110, 116];

/// The program address and bump seed that the search for a program derived
/// address yields for a list of seeds under a program, or `None` where the
/// search finds none. The search is a fixed computation on these bytes.
pub uninterp spec fn program_address(seeds: Seq<Seq<u8>>, program_id: Seq<u8>) -> Option<
    (Seq<u8>, u8),
>;

/// The program address that a list of seeds gives under a program as it
/// stands, without a search, or `None` where it gives none. It is a fixed
/// computation on these bytes.
pub uninterp spec fn created_program_address(seeds: Seq<Seq<u8>>, program_id: Seq<u8>) -> Option<
    Seq<u8>,
>;

/// The bytes held by a list of seeds, in the same order.
pub open spec fn seed_bytes(seeds: Seq<&[u8]>) -> Seq<Seq<u8>> {
    Seq::new(seeds.len(), |i: int| seeds[i]@)
}

/// Searches for the program derived address of `seeds` under `program_id`
/// with `Pubkey::try_find_program_address`.
///
/// Trusted: the result is what that search computes from the seeds and the
/// program id, and nothing else; and an address that the search returns with
/// a bump is the address that `Pubkey::create_program_address` gives for the
/// same seeds followed by that bump as one more seed, which is how the search
/// finds it. Nothing is claimed of which address comes out, nor that one is
/// found.
#[verifier::external_body]
fn find_program_address(seeds: &[&[u8]], program_id: &[u8; 32]) -> (found: Option<([u8; 32], u8)>)
    ensures
        match found {
            Some((address, bump)) => program_address(seed_bytes(seeds@), program_id@) == Some(
                (address@, bump),
            ),
            None => program_address(seed_bytes(seeds@), program_id@) is None,
        },
        found matches Some((address, bump)) ==> created_program_address(
            seed_bytes(seeds@).push(seq![bump]),
            program_id@,
        ) == Some(address@),
{
    let program = Pubkey::new_from_array(*program_id);
    match Pubkey::try_find_program_address(seeds, &program) {
        Some((key, bump)) => Some((key.to_bytes(), bump)),
        None => None,
    }
}

/// Computes the program address of `seeds` under `program_id` without a
/// search, with `Pubkey::create_program_address`.
///
/// Trusted: the result is what that function computes from the seeds and the
/// program id, and nothing else; `None` stands for each of its errors.
#[verifier::external_body]
fn create_program_address(seeds: &[&[u8]], program_id: &[u8; 32]) -> (created: Option<[u8; 32]>)
    ensures
        match created {
            Some(address) => created_program_address(seed_bytes(seeds@), program_id@) == Some(
                address@,
            ),
            None => created_program_address(seed_bytes(seeds@), program_id@) is None,
        },
{
    let program = Pubkey::new_from_array(*program_id);
    match Pubkey::create_program_address(seeds, &program) {
        Ok(key) => Some(key.to_bytes()),
        Err(_) => None,
    }
}

/// The seeds of a record's address: the fixed prefix, the reporter's
/// identity and the identifier in little-endian bytes.
pub open spec fn incident_seeds(reporter: Seq<u8>, incident_id: u64) -> Seq<Seq<u8>> {
    seq![SEED_PREFIX@, reporter, spec_u64_to_le_bytes(incident_id)]
}

/// The address at which the record `incident_id` of `reporter` lives, with
/// the bump that the derivation found; `None` where no address exists for
/// the pair. It depends on the reporter and the identifier alone.
pub open spec fn incident_address(reporter: Seq<u8>, incident_id: u64) -> Option<(Seq<u8>, u8)> {
    program_address(incident_seeds(reporter, incident_id), PROGRAM_ID@)
}

/// The address that the reporter, the identifier and a bump give without a
/// search; `None` where they give none.
pub open spec fn incident_address_with_bump(reporter: Seq<u8>, incident_id: u64, bump: u8) -> Option<
    Seq<u8>,
> {
    created_program_address(incident_seeds(reporter, incident_id).push(seq![bump]), PROGRAM_ID@)
}

/// Whether `address` and `bump` are what the derivation gives for the record
/// `incident_id` of `reporter`: the search yields them, and the bump alone
/// leads back to the address.
pub open spec fn derived_for(reporter: Seq<u8>, incident_id: u64, address: Seq<u8>, bump: u8) -> bool {
    &&& incident_address(reporter, incident_id) == Some((address, bump))
    &&& incident_address_with_bump(reporter, incident_id, bump) == Some(address)
}

/// Derives the address of the record `incident_id` of `reporter`, and the
/// bump to keep with the record.
pub fn find_incident_address(reporter: &[u8; 32], incident_id: u64) -> (found: Option<
    ([u8; 32], u8),
>)
    ensures
        match found {
            Some((address, bump)) => derived_for(reporter@, incident_id, address@, bump),
            None => incident_address(reporter@, incident_id) is None,
        },
{
    let identifier = u64_to_le_bytes(incident_id);
    let seeds: [&[u8]; 3] = [SEED_PREFIX.as_slice(), reporter.as_slice(), identifier.as_slice()];
    proof {
        assert(seed_bytes(seeds@) =~= incident_seeds(reporter@, incident_id));
    }
    find_program_address(seeds.as_slice(), &PROGRAM_ID)
}

/// Derives the address of the record `incident_id` of `reporter` again from
/// the bump that was kept with it, without a search.
pub fn incident_address_from_bump(reporter: &[u8; 32], incident_id: u64, bump: u8) -> (created:
    Option<[u8; 32]>)
    ensures
        match created {
            Some(address) => incident_address_with_bump(reporter@, incident_id, bump) == Some(
                address@,
            ),
            None => incident_address_with_bump(reporter@, incident_id, bump) is None,
        },
{
    let identifier = u64_to_le_bytes(incident_id);
    let last: [u8; 1] = [bump];
    let seeds: [&[u8]; 4] = [
        SEED_PREFIX.as_slice(),
        reporter.as_slice(),
        identifier.as_slice(),
        last.as_slice(),
    ];
    proof {
        assert(last@ =~= seq![bump]);
        assert(seed_bytes(seeds@) =~= incident_seeds(reporter@, incident_id).push(seq![bump]));
    }
    create_program_address(seeds.as_slice(), &PROGRAM_ID)
}

} // verus!
