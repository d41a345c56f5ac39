use anchor_lang::solana_program::pubkey::Pubkey;
use vstd::prelude::*;
use vstd::slice::slice_to_vec;

use crate::address::Address;

verus! {

/// The label under which the faucet's mint authority is derived: the bytes of
/// the word "mint".
pub const MINT_LABEL: [u8; 4] = [109, 105, 110, 116];

/// The address that the chain derives from a list of seeds under a program,
/// where the seeds give one. Nothing fixes its value here but the chain's own
/// derivation function.
pub uninterp spec fn derived_address(seeds: Seq<Seq<u8>>, program: Seq<u8>) -> Option<Seq<u8>>;

/// The address and counter that the chain's search for a derived address
/// ends on, where it ends on one.
pub uninterp spec fn found_address(seeds: Seq<Seq<u8>>, program: Seq<u8>) -> Option<
    (Seq<u8>, u8),
>;

/// A list of seeds as the sequences of bytes that it holds.
pub open spec fn seed_list(seeds: Seq<Vec<u8>>) -> Seq<Seq<u8>> {
    Seq::new(seeds.len(), |i: int| seeds[i]@)
}

/// Whether a list of seeds is within the chain's limits: at most 16 seeds of at
/// most 32 bytes each.
pub open spec fn seeds_fit(seeds: Seq<Seq<u8>>) -> bool {
    &&& seeds.len() <= 16
    &&& forall|i: int| 0 <= i < seeds.len() ==> (#[trigger] seeds[i]).len() <= 32
}

/// The seeds of an authority: its label, then its counter as one byte.
pub open spec fn authority_seeds(label: Seq<u8>, counter: u8) -> Seq<Seq<u8>> {
    seq![label, seq![counter]]
}

/// The authority that a label and a counter give under a program.
pub open spec fn authority_of(label: Seq<u8>, counter: u8, program: Seq<u8>) -> Option<Seq<u8>> {
    derived_address(authority_seeds(label, counter), program)
}

/// The bytes of an address that may be absent.
pub open spec fn address_bytes(a: Option<Address>) -> Option<Seq<u8>> {
    match a {
        Some(a) => Some(a@),
        None => None,
    }
}

/// The bytes of an address that may be absent, beside its counter.
pub open spec fn found_bytes(f: Option<(Address, u8)>) -> Option<(Seq<u8>, u8)> {
    match f {
        Some((a, counter)) => Some((a@, counter)),
        None => None,
    }
}

/// Calls `Pubkey::create_program_address` of solana-program. Trusted: the
/// result is `derived_address` of the seeds and the program, and there is none
/// where the seeds are more than 16 or one of them is longer than 32 bytes.
#[verifier::external_body]
fn create_address(seeds: &Vec<Vec<u8>>, program: &Address) -> (r: Option<Address>)
    ensures
        address_bytes(r) == derived_address(seed_list(seeds@), program@),
        !seeds_fit(seed_list(seeds@)) ==> r is None,
{
    let parts: Vec<&[u8]> = seeds.iter().map(|s| s.as_slice()).collect();
    Pubkey::create_program_address(&parts, &Pubkey::new_from_array(program.bytes))
        .ok()
        .map(|key| Address { bytes: key.to_bytes() })
}

/// Calls `Pubkey::try_find_program_address` of solana-program. Trusted: the
/// result is `found_address` of the seeds and the program, and the address it
/// gives is the one derived from the seeds followed by the counter it gives.
#[verifier::external_body]
fn find_address(seeds: &Vec<Vec<u8>>, program: &Address) -> (r: Option<(Address, u8)>)
    ensures
        found_bytes(r) == found_address(seed_list(seeds@), program@),
        r matches Some((a, counter)) ==> derived_address(
            seed_list(seeds@).push(seq![counter]),
            program@,
        ) == Some(a@),
{
    let parts: Vec<&[u8]> = seeds.iter().map(|s| s.as_slice()).collect();
    Pubkey::try_find_program_address(&parts, &Pubkey::new_from_array(program.bytes))
        .map(|(key, counter)| (Address { bytes: key.to_bytes() }, counter))
}

/// The seeds that sign for an authority: its label, then its counter.
pub fn signer_seeds(label: &[u8], counter: u8) -> (seeds: Vec<Vec<u8>>)
    ensures
        seed_list(seeds@) == authority_seeds(label@, counter),
{
    let mut seeds: Vec<Vec<u8>> = Vec::new();
    seeds.push(slice_to_vec(label));
    let mut last: Vec<u8> = Vec::new();
    last.push(counter);
    seeds.push(last);
    assert(seed_list(seeds@) =~= authority_seeds(label@, counter));
    seeds
}

/// Derives the authority of a label and a counter under a program. There is
/// none where the label is longer than 32 bytes, nor where the chain's
/// derivation rejects the counter.
pub fn derive_authority(label: &[u8], counter: u8, program: &Address) -> (r: Option<Address>)
    ensures
        address_bytes(r) == authority_of(label@, counter, program@),
        label@.len() > 32 ==> r is None,
{
    let seeds = signer_seeds(label, counter);
    assert(label@.len() > 32 ==> !seeds_fit(seed_list(seeds@))) by {
        assert(seed_list(seeds@)[0] == label@);
    }
    create_address(&seeds, program)
}

/// Searches the counter of a label under a program: the authority and the
/// counter that derives it, where the chain's search ends on one.
pub fn find_authority(label: &[u8], program: &Address) -> (r: Option<(Address, u8)>)
    ensures
        found_bytes(r) == found_address(seq![label@], program@),
        r matches Some((a, counter)) ==> authority_of(label@, counter, program@) == Some(a@),
{
    let mut seeds: Vec<Vec<u8>> = Vec::new();
    seeds.push(slice_to_vec(label));
    assert(seed_list(seeds@) =~= seq![label@]);
    let r = find_address(&seeds, program);
    proof {
        if let Some((a, counter)) = r {
            assert(seq![label@].push(seq![counter]) =~= authority_seeds(label@, counter));
        }
    }
    r
}

} // verus!
