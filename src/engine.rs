//! The requests this program hands to the external asset engine: one
//! invocation per operation, naming the engine program so that it cannot be
//! redirected, and carrying the derived authority's seeds where the program
//! signs for it.
use vstd::prelude::*;
use crate::address::Address;
use crate::plugins::PluginAuthorityPair;

verus! {

/// The asset engine's program address,
/// `CoREENxT6tW1HoK8ypY1SxRMZTcVPm7R94rH4PZNhX7d`, as bytes.
pub open spec fn engine_program_address() -> Seq<u8> {
    seq![
        175u8, 84u8, 171u8, 16u8, 189u8, 151u8, 165u8, 66u8,
        160u8, 158u8, 247u8, 179u8, 152u8, 137u8, 221u8, 12u8,
        211u8, 148u8, 164u8, 204u8, 233u8, 223u8, 166u8, 205u8,
        201u8, 126u8, 190u8, 45u8, 35u8, 91u8, 167u8, 72u8,
    ]
}

/// Relies on `mpl_core::ID`, declared in the engine's crate as
/// `pubkey!("CoREENxT6tW1HoK8ypY1SxRMZTcVPm7R94rH4PZNhX7d")`.
#[verifier::external_body]
pub(crate) fn engine_program_id() -> (r: Address)
    ensures
        r@ == engine_program_address(),
{
    Address { bytes: mpl_core::ID.to_bytes() }
}

/// A state change asked of the asset engine.
#[derive(Clone, Debug, PartialEq, Eq)]
#[allow(inconsistent_fields)]
pub enum EngineRequest {
    /// Create a collection record.
    CreateCollection {
        collection: Address,
        update_authority: Address,
        payer: Address,
        name: String,
        uri: String,
    },
    /// Create an asset, optionally inside a collection, with its plugins.
    CreateAsset {
        asset: Address,
        collection: Option<Address>,
        authority: Address,
        payer: Address,
        owner: Address,
        update_authority: Option<Address>,
        name: String,
        uri: String,
        plugins: Vec<PluginAuthorityPair>,
    },
    /// Set the `frozen` state of the asset's freeze delegate.
    UpdateFreeze {
        asset: Address,
        collection: Option<Address>,
        payer: Address,
        authority: Address,
        frozen: bool,
    },
    /// Destroy the asset.
    Burn { asset: Address, collection: Option<Address>, payer: Address, authority: Address },
    /// Give the asset to a new owner.
    Transfer {
        asset: Address,
        collection: Option<Address>,
        payer: Address,
        authority: Address,
        new_owner: Address,
    },
}

/// One call into the asset engine.
#[derive(Clone, Debug, PartialEq, Eq)]
pub struct Invocation {
    /// The engine program that is invoked.
    pub program: Address,
    /// The system program handed to the engine for account creation.
    pub system_program: Address,
    pub request: EngineRequest,
    /// The seed bundle of the derived authority, where the program signs.
    pub signer_seeds: Option<Vec<Vec<u8>>>,
}

} // verus!
