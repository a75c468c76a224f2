use vstd::prelude::*;

use crate::identity::{identity_eq, Identity};

verus! {

/// The derived authority that the external address scheme assigns to a seed
/// and a program identity: the derived 32-byte identity together with the
/// disambiguation counter, or `None` in the statistically improbable event
/// that no counter yields a valid derivation.
pub uninterp spec fn derived_authority_of(seed: Seq<u8>, program: Seq<u8>) -> Option<(
    Seq<u8>,
    u8,
)>;

/// The fixed seed under which this program derives its signing authority.
pub open spec fn authority_seed() -> Seq<u8> {
    seq![
        0x6du8,
        0x69u8,
        0x6eu8,
        0x74u8,
        0x5fu8,
        0x61u8,
        0x75u8,
        0x74u8,
        0x68u8,
        0x6fu8,
        0x72u8,
        0x69u8,
        0x74u8,
        0x79u8,
    ]
}

/// The bytes of `authority_seed()`: the label "mint_authority".
pub fn authority_seed_bytes() -> (r: Vec<u8>)
    ensures
        r@ == authority_seed(),
{
    let mut v: Vec<u8> = Vec::new();
    v.push(0x6d);
    v.push(0x69);
    v.push(0x6e);
    v.push(0x74);
    v.push(0x5f);
    v.push(0x61);
    v.push(0x75);
    v.push(0x74);
    v.push(0x68);
    v.push(0x6f);
    v.push(0x72);
    v.push(0x69);
    v.push(0x74);
    v.push(0x79);
    proof {
        assert(v@ =~= authority_seed());
    }
    v
}

/// What a derivation result states, as plain values.
pub open spec fn derived_view(r: Option<(Identity, u8)>) -> Option<(Seq<u8>, u8)> {
    match r {
        Some(p) => Some((p.0@, p.1)),
        None => None,
    }
}

/// Relies on solana_pubkey::Pubkey::try_find_program_address: the derived
/// address and its disambiguation counter depend on the seed and the program
/// identity alone; `None` comes back when no counter admits a derivation or
/// the seeds exceed the scheme's limits.
#[verifier::external_body]
pub(crate) fn find_derived_authority(seed: &Vec<u8>, program: &Identity) -> (r: Option<
    (Identity, u8),
>)
    ensures
        derived_view(r) == derived_authority_of(seed@, program@),
{
    let program_key = solana_pubkey::Pubkey::new_from_array(program.bytes);
    match solana_pubkey::Pubkey::try_find_program_address(&[seed.as_slice()], &program_key) {
        Some((address, counter)) => Some((Identity { bytes: address.to_bytes() }, counter)),
        None => None,
    }
}

/// Recomputes the program's derived authority from the fixed seed and the
/// given program identity.
pub fn derive_program_authority(program: &Identity) -> (r: Option<(Identity, u8)>)
    ensures
        derived_view(r) == derived_authority_of(authority_seed(), program@),
{
    let seed = authority_seed_bytes();
    find_derived_authority(&seed, program)
}

/// Law: recomputing the derived authority twice from the same program
/// identity yields an identical (identity, counter) pair every time.
pub fn derivation_is_deterministic(program: &Identity) -> (r: bool)
    ensures
        r,
{
    let first = derive_program_authority(program);
    let second = derive_program_authority(program);
    match (&first, &second) {
        (Some(p), Some(q)) => identity_eq(&p.0, &q.0) && p.1 == q.1,
        (None, None) => true,
        _ => false,
    }
}

} // verus!
