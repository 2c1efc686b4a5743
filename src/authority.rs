//! Derivation of the collection-scoped signing authority: a key-less
//! address computed from a fixed seed label, the collection's identity and a
//! bump byte chosen by whoever first established the authority.
use vstd::prelude::*;
use anchor_lang::prelude::Pubkey;
use anchor_lang::solana_program::pubkey::PubkeyError;
use crate::address::Address;

verus! {

/// The error type of `Pubkey::create_program_address`, carried through opaque.
#[verifier::external_type_specification]
#[verifier::external_body]
pub struct ExPubkeyError(PubkeyError);

/// The bytes of the seed label `authority`.
pub open spec fn authority_label() -> Seq<u8> {
    seq![97u8, 117u8, 116u8, 104u8, 111u8, 114u8, 105u8, 116u8, 121u8]
}

/// The seed list that a collection's authority is derived from:
/// the label, the collection's identity, and the bump.
pub open spec fn authority_seeds(collection: Seq<u8>, bump: u8) -> Seq<Seq<u8>> {
    seq![authority_label(), collection, seq![bump]]
}

/// The program-derived address of a seed list under a program, or `None`
/// when the seeds give a point on the ed25519 curve (no key-less address).
pub uninterp spec fn program_address_of(seeds: Seq<Seq<u8>>, program_id: Seq<u8>) -> Option<Seq<u8>>;

/// The authority that `program_id` derives for `collection` with `bump`.
pub open spec fn derived_authority(program_id: Seq<u8>, collection: Seq<u8>, bump: u8) -> Option<
    Seq<u8>,
> {
    program_address_of(authority_seeds(collection, bump), program_id)
}

/// Relies on `Pubkey::create_program_address`: for at most 16 seeds of at
/// most 32 bytes each, it returns the address hashed from the seeds and the
/// program id, or an error when that hash lies on the curve.
#[verifier::external_body]
fn create_program_address(seeds: &Vec<Vec<u8>>, program_id: &Address) -> (r: Result<
    Address,
    PubkeyError,
>)
    requires
        seeds@.len() <= 16,
        forall|i: int| 0 <= i < seeds@.len() ==> #[trigger] seeds@[i]@.len() <= 32,
    ensures
        match r {
            Ok(a) => program_address_of(seeds.deep_view(), program_id@) == Some(a@),
            Err(_) => program_address_of(seeds.deep_view(), program_id@) is None,
        },
{
    let slices: Vec<&[u8]> = seeds.iter().map(|s| s.as_slice()).collect();
    let program = Pubkey::new_from_array(program_id.bytes);
    Pubkey::create_program_address(&slices, &program).map(|k| Address { bytes: k.to_bytes() })
}

/// A derived authority together with the seed bundle that lets the program
/// sign for it.
#[derive(Clone, Debug, PartialEq, Eq)]
pub struct DerivedAuthority {
    pub address: Address,
    pub bump: u8,
    pub signer_seeds: Vec<Vec<u8>>,
}

/// Why an authority could not be derived.
#[derive(Clone, Copy, Debug, PartialEq, Eq)]
pub enum AuthorityError {
    /// The seeds with this bump give no key-less address.
    NotDerivable,
}

/// The seed label `authority` as bytes.
pub fn authority_label_bytes() -> (r: Vec<u8>)
    ensures
        r@ == authority_label(),
{
    // "authority"
    let r: Vec<u8> = vec![97u8, 117u8, 116u8, 104u8, 111u8, 114u8, 105u8, 116u8, 121u8];
    assert(r@ =~= authority_label());
    r
}

/// The seed bundle of a collection's authority.
pub fn authority_seed_bundle(collection: &Address, bump: u8) -> (r: Vec<Vec<u8>>)
    ensures
        r.deep_view() == authority_seeds(collection@, bump),
        r@.len() == 3,
        forall|i: int| 0 <= i < 3 ==> #[trigger] r@[i]@.len() <= 32,
{
    let label = authority_label_bytes();
    let id = vstd::slice::slice_to_vec(collection.bytes.as_slice());
    let b: Vec<u8> = vec![bump];
    let r: Vec<Vec<u8>> = vec![label, id, b];
    assert(r@[0].deep_view() =~= authority_label());
    assert(r@[1].deep_view() =~= collection@);
    assert(r@[2].deep_view() =~= seq![bump]);
    assert(r.deep_view() =~= authority_seeds(collection@, bump));
    r
}

/// Derives the authority of `collection` under `program_id` with the given
/// bump. The bump is the one used when the authority was first established;
/// no other is searched for.
pub fn derive_authority(program_id: &Address, collection: &Address, bump: u8) -> (r: Result<
    DerivedAuthority,
    AuthorityError,
>)
    ensures
        r is Ok <==> derived_authority(program_id@, collection@, bump) is Some,
        r matches Ok(d) ==> {
            &&& Some(d.address@) == derived_authority(program_id@, collection@, bump)
            &&& d.bump == bump
            &&& d.signer_seeds.deep_view() == authority_seeds(collection@, bump)
        },
        r matches Err(e) ==> e == AuthorityError::NotDerivable,
{
    let seeds = authority_seed_bundle(collection, bump);
    match create_program_address(&seeds, program_id) {
        Ok(address) => Ok(DerivedAuthority { address, bump, signer_seeds: seeds }),
        Err(_) => Err(AuthorityError::NotDerivable),
    }
}

/// Derivation is a function of its inputs: the same program, collection and
/// bump always give the same authority and the same seed bundle.
pub proof fn lemma_derivation_deterministic(
    program_a: Seq<u8>,
    collection_a: Seq<u8>,
    bump_a: u8,
    program_b: Seq<u8>,
    collection_b: Seq<u8>,
    bump_b: u8,
)
    requires
        program_a == program_b,
        collection_a == collection_b,
        bump_a == bump_b,
    ensures
        derived_authority(program_a, collection_a, bump_a) == derived_authority(
            program_b,
            collection_b,
            bump_b,
        ),
        authority_seeds(collection_a, bump_a) == authority_seeds(collection_b, bump_b),
{
}

/// Different bumps give different seed bundles for the same collection, so a
/// signature made with one bump's seeds never stands for another bump's.
pub proof fn lemma_bump_distinguishes_seeds(collection: Seq<u8>, bump_a: u8, bump_b: u8)
    requires
        bump_a != bump_b,
    ensures
        authority_seeds(collection, bump_a) != authority_seeds(collection, bump_b),
{
    assert(authority_seeds(collection, bump_a)[2][0] == bump_a);
    assert(authority_seeds(collection, bump_b)[2][0] == bump_b);
}

} // verus!
