//! Collection-scoped authority derivation, plugin composition and the
//! asset lifecycle rules of a delegated-authority asset program.
mod address;
mod keyed;
pub mod authority;
pub mod engine;
pub mod instructions;
pub mod ledger;
pub mod plugins;

pub use address::Address;
pub use engine::{EngineRequest, Invocation};
pub use instructions::{BurnAsset, FreezeAsset, MintAsset, MintCollection, TransferAsset, TrackError};

use vstd::prelude::*;
use instructions::{
    asset_mint_outcome, burn_outcome, collection_creation_outcome, freeze_outcome,
    transfer_outcome, unfreeze_outcome,
};

verus! {

/// Creates a collection whose update authority is the authority that
/// `program_id` derives for it with `bump`.
pub fn create_collection(
    accounts: &MintCollection,
    program_id: &Address,
    bump: u8,
) -> (r: Result<Invocation, TrackError>)
    ensures
        collection_creation_outcome(*accounts, *program_id, bump, r),
{
    accounts.mint_core_collection(program_id, bump)
}

/// Mints an asset into a collection, with optional controllers for its
/// freeze and burn delegates.
pub fn mint_asset(
    accounts: &MintAsset,
    program_id: &Address,
    bump: u8,
    freeze_authority: Option<Address>,
    burn_authority: Option<Address>,
) -> (r: Result<Invocation, TrackError>)
    ensures
        asset_mint_outcome(*accounts, *program_id, bump, freeze_authority, burn_authority, r),
{
    accounts.mint_core_asset(program_id, bump, freeze_authority, burn_authority)
}

/// Freezes an asset, so that it cannot be transferred.
pub fn freeze_asset(accounts: &FreezeAsset) -> (r: Result<Invocation, TrackError>)
    ensures
        freeze_outcome(*accounts, r),
{
    accounts.freeze_asset()
}

/// Unfreezes an asset, so that it can be transferred again.
pub fn unfreeze_asset(accounts: &FreezeAsset) -> (r: Result<
    Invocation,
    TrackError,
>)
    ensures
        unfreeze_outcome(*accounts, r),
{
    accounts.unfreeze_asset()
}

/// Destroys an asset for good.
pub fn burn_asset(accounts: &BurnAsset) -> (r: Result<Invocation, TrackError>)
    ensures
        burn_outcome(*accounts, r),
{
    accounts.burn_asset()
}

/// Gives an asset to a new owner.
pub fn transfer_asset(accounts: &TransferAsset) -> (r: Result<
    Invocation,
    TrackError,
>)
    ensures
        transfer_outcome(*accounts, r),
{
    accounts.transfer_asset()
}

} // verus!
