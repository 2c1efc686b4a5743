//! The program's operations. Each one checks the accounts it was handed,
//! derives the collection authority where it signs for it, and builds the
//! single invocation of the asset engine that performs the change. The
//! engine itself enforces plugin authorities and the frozen state.
use vstd::prelude::*;
use crate::address::Address;
use crate::authority::{authority_seeds, derive_authority, derived_authority, DerivedAuthority};
use crate::engine::{engine_program_address, engine_program_id, EngineRequest, Invocation};
use crate::plugins::{compose_plugins, is_minted_plugin_list};

verus! {

/// Why an operation was refused before anything was asked of the engine.
#[derive(Clone, Copy, Debug, PartialEq, Eq)]
pub enum TrackError {
    /// The account given as the system program is not the system program.
    WrongSystemProgram,
    /// The account given as the asset engine is not the engine program.
    WrongEngineProgram,
    /// The collection's seeds with the given bump give no key-less address.
    AuthorityNotDerivable,
    /// The account given as the collection authority is not the one derived.
    AuthorityMismatch,
}

/// The system program's address: 32 zero bytes.
pub open spec fn system_program_address() -> Seq<u8> {
    Seq::new(32, |i: int| 0u8)
}

/// Relies on `anchor_lang::system_program::ID`, the system program's
/// address `11111111111111111111111111111111`, whose bytes are all zero.
#[verifier::external_body]
fn system_program_id() -> (r: Address)
    ensures
        r@ == system_program_address(),
{
    Address { bytes: anchor_lang::system_program::ID.to_bytes() }
}

/// The refusal owed to the program accounts an operation was handed, if any.
pub open spec fn program_accounts_error(
    system_program: Address,
    mpl_core_program: Address,
) -> Option<TrackError> {
    if system_program@ != system_program_address() {
        Some(TrackError::WrongSystemProgram)
    } else if mpl_core_program@ != engine_program_address() {
        Some(TrackError::WrongEngineProgram)
    } else {
        None
    }
}

/// The refusal owed to an operation that signs for the collection
/// authority, once that authority has been derived: the authority account
/// must be it (checked first, as the account comes before the programs), and
/// the program accounts must be the real ones.
pub open spec fn signed_request_error(
    authority: Address,
    derived: Seq<u8>,
    system_program: Address,
    mpl_core_program: Address,
) -> Option<TrackError> {
    if authority@ != derived {
        Some(TrackError::AuthorityMismatch)
    } else {
        program_accounts_error(system_program, mpl_core_program)
    }
}

/// What collection creation returns once the authority has been derived as
/// `derived` with seed bundle `seeds`: the creation request, or exactly the
/// refusal owed.
pub open spec fn collection_request_outcome(
    a: MintCollection,
    derived: Seq<u8>,
    seeds: Seq<Seq<u8>>,
    r: Result<Invocation, TrackError>,
) -> bool {
    match r {
        Ok(inv) => {
            &&& signed_request_error(a.authority, derived, a.system_program, a.mpl_core_program) is None
            &&& inv.program == a.mpl_core_program
            &&& inv.system_program == a.system_program
            &&& inv.signer_seeds matches Some(s) && s.deep_view() == seeds
            &&& inv.request matches EngineRequest::CreateCollection {
                collection,
                update_authority,
                payer,
                name,
                uri,
            } && collection == a.collection && update_authority == a.authority
                && payer == a.user && name@ == "Legder Collection"@ && uri@
                == "https://myasset.com"@
        },
        Err(e) => signed_request_error(a.authority, derived, a.system_program, a.mpl_core_program)
            == Some(e),
    }
}

/// What collection creation returns: a refusal when the seeds with `bump`
/// give no authority, else as `collection_request_outcome` with the derived
/// authority and its seeds.
pub open spec fn collection_creation_outcome(
    a: MintCollection,
    program_id: Address,
    bump: u8,
    r: Result<Invocation, TrackError>,
) -> bool {
    match derived_authority(program_id@, a.collection@, bump) {
        None => r == Err::<Invocation, TrackError>(TrackError::AuthorityNotDerivable),
        Some(d) => collection_request_outcome(a, d, authority_seeds(a.collection@, bump), r),
    }
}

/// What minting returns once the authority has been derived as `derived`
/// with seed bundle `seeds`: the asset creation request, or exactly the
/// refusal owed.
pub open spec fn asset_request_outcome(
    a: MintAsset,
    derived: Seq<u8>,
    seeds: Seq<Seq<u8>>,
    freeze_authority: Option<Address>,
    burn_authority: Option<Address>,
    r: Result<Invocation, TrackError>,
) -> bool {
    match r {
        Ok(inv) => {
            &&& signed_request_error(a.authority, derived, a.system_program, a.mpl_core_program) is None
            &&& inv.program == a.mpl_core_program
            &&& inv.system_program == a.system_program
            &&& inv.signer_seeds matches Some(s) && s.deep_view() == seeds
            &&& inv.request matches EngineRequest::CreateAsset {
                asset,
                collection,
                authority,
                payer,
                owner,
                update_authority,
                name,
                uri,
                plugins,
            } && asset == a.mint && collection == Some(a.collection) && authority
                == a.authority && payer == a.user && owner == a.user
                && update_authority is None && name@ == "My Asset"@ && uri@
                == "https://myasset.com"@ && is_minted_plugin_list(
                plugins@,
                a.authority,
                freeze_authority,
                burn_authority,
            )
        },
        Err(e) => signed_request_error(a.authority, derived, a.system_program, a.mpl_core_program)
            == Some(e),
    }
}

/// What minting returns: a refusal when the seeds with `bump` give no
/// authority, else as `asset_request_outcome` with the derived authority
/// and its seeds.
pub open spec fn asset_mint_outcome(
    a: MintAsset,
    program_id: Address,
    bump: u8,
    freeze_authority: Option<Address>,
    burn_authority: Option<Address>,
    r: Result<Invocation, TrackError>,
) -> bool {
    match derived_authority(program_id@, a.collection@, bump) {
        None => r == Err::<Invocation, TrackError>(TrackError::AuthorityNotDerivable),
        Some(d) => asset_request_outcome(
            a,
            d,
            authority_seeds(a.collection@, bump),
            freeze_authority,
            burn_authority,
            r,
        ),
    }
}

/// What freezing returns: the freeze request, or exactly the refusal owed.
pub open spec fn freeze_outcome(
    a: FreezeAsset,
    r: Result<Invocation, TrackError>,
) -> bool {
    match r {
        Ok(inv) => program_accounts_error(a.system_program, a.mpl_core_program) is None && is_freeze_update(inv, a, true),
        Err(e) => program_accounts_error(a.system_program, a.mpl_core_program) == Some(e),
    }
}

/// What unfreezing returns: the unfreeze request, or exactly the refusal owed.
pub open spec fn unfreeze_outcome(
    a: FreezeAsset,
    r: Result<Invocation, TrackError>,
) -> bool {
    match r {
        Ok(inv) => program_accounts_error(a.system_program, a.mpl_core_program) is None && is_freeze_update(inv, a, false),
        Err(e) => program_accounts_error(a.system_program, a.mpl_core_program) == Some(e),
    }
}

/// What burning returns: the burn request, or exactly the refusal owed.
pub open spec fn burn_outcome(
    a: BurnAsset,
    r: Result<Invocation, TrackError>,
) -> bool {
    match r {
        Ok(inv) => {
            &&& program_accounts_error(a.system_program, a.mpl_core_program) is None
            &&& inv.program == a.mpl_core_program
            &&& inv.system_program == a.system_program
            &&& inv.signer_seeds is None
            &&& inv.request == EngineRequest::Burn {
                asset: a.asset,
                collection: a.collection,
                payer: a.burn_authority,
                authority: a.burn_authority,
            }
        },
        Err(e) => program_accounts_error(a.system_program, a.mpl_core_program) == Some(e),
    }
}

/// What a transfer returns: the transfer request, or exactly the refusal owed.
pub open spec fn transfer_outcome(
    a: TransferAsset,
    r: Result<Invocation, TrackError>,
) -> bool {
    match r {
        Ok(inv) => {
            &&& program_accounts_error(a.system_program, a.mpl_core_program) is None
            &&& inv.program == a.mpl_core_program
            &&& inv.system_program == a.system_program
            &&& inv.signer_seeds is None
            &&& inv.request == EngineRequest::Transfer {
                asset: a.asset,
                collection: a.collection,
                payer: a.current_owner,
                authority: a.current_owner,
                new_owner: a.new_owner,
            }
        },
        Err(e) => program_accounts_error(a.system_program, a.mpl_core_program) == Some(e),
    }
}

/// Checks that the system program and engine program accounts are the real ones.
fn check_program_accounts(
    system_program: &Address,
    mpl_core_program: &Address,
) -> (r: Result<(), TrackError>)
    ensures
        r matches Ok(_) <==> program_accounts_error(*system_program, *mpl_core_program) is None,
        r matches Err(e) ==> program_accounts_error(*system_program, *mpl_core_program) == Some(e),
{
    let system = system_program_id();
    if !system_program.same_as(&system) {
        return Err(TrackError::WrongSystemProgram);
    }
    let engine = engine_program_id();
    if !mpl_core_program.same_as(&engine) {
        return Err(TrackError::WrongEngineProgram);
    }
    Ok(())
}

/// The accounts of collection creation.
#[derive(Clone, Copy, Debug, PartialEq, Eq)]
pub struct MintCollection {
    /// Pays for the new record.
    pub user: Address,
    /// The new collection's identity.
    pub collection: Address,
    /// The collection's derived authority.
    pub authority: Address,
    pub system_program: Address,
    pub mpl_core_program: Address,
}

impl MintCollection {
    /// Asks the engine to create the collection, with the derived authority
    /// as its update authority, signed with that authority's seeds.
    pub fn mint_core_collection(&self, program_id: &Address, bump: u8) -> (r: Result<
        Invocation,
        TrackError,
    >)
        ensures
            collection_creation_outcome(*self, *program_id, bump, r),
    {
        match derive_authority(program_id, &self.collection, bump) {
            Err(_) => Err(TrackError::AuthorityNotDerivable),
            Ok(derived) => self.creation_request(derived),
        }
    }

    /// The creation request, given the collection's derived authority.
    pub fn creation_request(&self, derived: DerivedAuthority) -> (r: Result<Invocation, TrackError>)
        ensures
            collection_request_outcome(
                *self,
                derived.address@,
                derived.signer_seeds.deep_view(),
                r,
            ),
    {
        if !self.authority.same_as(&derived.address) {
            return Err(TrackError::AuthorityMismatch);
        }
        check_program_accounts(&self.system_program, &self.mpl_core_program)?;
        let request = EngineRequest::CreateCollection {
            collection: self.collection,
            update_authority: self.authority,
            payer: self.user,
            name: "Legder Collection".to_string(),
            uri: "https://myasset.com".to_string(),
        };
        Ok(
            Invocation {
                program: self.mpl_core_program,
                system_program: self.system_program,
                request,
                signer_seeds: Some(derived.signer_seeds),
            },
        )
    }
}

/// The accounts of minting an asset into a collection.
#[derive(Clone, Copy, Debug, PartialEq, Eq)]
pub struct MintAsset {
    /// Pays for the asset and becomes its owner.
    pub user: Address,
    /// The new asset's identity.
    pub mint: Address,
    /// The collection the asset joins.
    pub collection: Address,
    /// The collection's derived authority.
    pub authority: Address,
    pub system_program: Address,
    pub mpl_core_program: Address,
}

impl MintAsset {
    /// Asks the engine to create the asset in the collection, owned by the
    /// user, with the metadata, freeze and burn plugins. The freeze and burn
    /// delegates are controlled by the addresses given, or by the derived
    /// authority where none is given. Signed with the authority's seeds.
    pub fn mint_core_asset(
        &self,
        program_id: &Address,
        bump: u8,
        freeze_authority: Option<Address>,
        burn_authority: Option<Address>,
    ) -> (r: Result<Invocation, TrackError>)
        ensures
            asset_mint_outcome(*self, *program_id, bump, freeze_authority, burn_authority, r),
    {
        match derive_authority(program_id, &self.collection, bump) {
            Err(_) => Err(TrackError::AuthorityNotDerivable),
            Ok(derived) => self.asset_request(derived, freeze_authority, burn_authority),
        }
    }

    /// The asset creation request, given the collection's derived authority.
    pub fn asset_request(
        &self,
        derived: DerivedAuthority,
        freeze_authority: Option<Address>,
        burn_authority: Option<Address>,
    ) -> (r: Result<Invocation, TrackError>)
        ensures
            asset_request_outcome(
                *self,
                derived.address@,
                derived.signer_seeds.deep_view(),
                freeze_authority,
                burn_authority,
                r,
            ),
    {
        if !self.authority.same_as(&derived.address) {
            return Err(TrackError::AuthorityMismatch);
        }
        check_program_accounts(&self.system_program, &self.mpl_core_program)?;
        let plugins = compose_plugins(self.authority, freeze_authority, burn_authority);
        let request = EngineRequest::CreateAsset {
            asset: self.mint,
            collection: Some(self.collection),
            authority: self.authority,
            payer: self.user,
            owner: self.user,
            update_authority: None,
            name: "My Asset".to_string(),
            uri: "https://myasset.com".to_string(),
            plugins,
        };
        Ok(
            Invocation {
                program: self.mpl_core_program,
                system_program: self.system_program,
                request,
                signer_seeds: Some(derived.signer_seeds),
            },
        )
    }
}

/// The accounts of freezing or unfreezing an asset.
#[derive(Clone, Copy, Debug, PartialEq, Eq)]
pub struct FreezeAsset {
    /// The signer that claims to control the asset's freeze delegate.
    pub freeze_authority: Address,
    pub asset: Address,
    /// The asset's collection, for an asset that has one.
    pub collection: Option<Address>,
    pub system_program: Address,
    pub mpl_core_program: Address,
}

/// Whether `inv` asks the engine to set the frozen state of the asset,
/// signed and paid by the freeze authority.
pub open spec fn is_freeze_update(inv: Invocation, a: FreezeAsset, frozen: bool) -> bool {
    &&& inv.program == a.mpl_core_program
    &&& inv.system_program == a.system_program
    &&& inv.signer_seeds is None
    &&& inv.request == EngineRequest::UpdateFreeze {
        asset: a.asset,
        collection: a.collection,
        payer: a.freeze_authority,
        authority: a.freeze_authority,
        frozen,
    }
}

impl FreezeAsset {
    fn update_freeze(&self, frozen: bool) -> (r: Result<Invocation, TrackError>)
        ensures
            match r {
                Ok(inv) => program_accounts_error(self.system_program, self.mpl_core_program) is None && is_freeze_update(inv, *self, frozen),
                Err(e) => program_accounts_error(self.system_program, self.mpl_core_program) == Some(e),
            },
    {
        check_program_accounts(&self.system_program, &self.mpl_core_program)?;
        let request = EngineRequest::UpdateFreeze {
            asset: self.asset,
            collection: self.collection,
            payer: self.freeze_authority,
            authority: self.freeze_authority,
            frozen,
        };
        Ok(
            Invocation {
                program: self.mpl_core_program,
                system_program: self.system_program,
                request,
                signer_seeds: None,
            },
        )
    }

    /// Asks the engine to freeze the asset. Issued whatever the asset's
    /// current state; the engine accepts it only from the freeze delegate's
    /// controller.
    pub fn freeze_asset(&self) -> (r: Result<Invocation, TrackError>)
        ensures
            freeze_outcome(*self, r),
    {
        self.update_freeze(true)
    }

    /// Asks the engine to unfreeze the asset. Issued whatever the asset's
    /// current state; the engine accepts it only from the freeze delegate's
    /// controller.
    pub fn unfreeze_asset(&self) -> (r: Result<Invocation, TrackError>)
        ensures
            unfreeze_outcome(*self, r),
    {
        self.update_freeze(false)
    }
}

/// The accounts of burning an asset.
#[derive(Clone, Copy, Debug, PartialEq, Eq)]
pub struct BurnAsset {
    /// The signer that claims to control the asset's burn delegate.
    pub burn_authority: Address,
    pub asset: Address,
    /// The asset's collection, for an asset that has one.
    pub collection: Option<Address>,
    pub system_program: Address,
    pub mpl_core_program: Address,
}

impl BurnAsset {
    /// Asks the engine to destroy the asset, signed and paid by the burn
    /// authority.
    pub fn burn_asset(&self) -> (r: Result<Invocation, TrackError>)
        ensures
            burn_outcome(*self, r),
    {
        check_program_accounts(&self.system_program, &self.mpl_core_program)?;
        let request = EngineRequest::Burn {
            asset: self.asset,
            collection: self.collection,
            payer: self.burn_authority,
            authority: self.burn_authority,
        };
        Ok(
            Invocation {
                program: self.mpl_core_program,
                system_program: self.system_program,
                request,
                signer_seeds: None,
            },
        )
    }
}

/// The accounts of transferring an asset.
#[derive(Clone, Copy, Debug, PartialEq, Eq)]
pub struct TransferAsset {
    /// The asset's owner, who signs and pays.
    pub current_owner: Address,
    pub new_owner: Address,
    pub asset: Address,
    /// The asset's collection, for an asset that has one.
    pub collection: Option<Address>,
    pub system_program: Address,
    pub mpl_core_program: Address,
}

impl TransferAsset {
    /// Asks the engine to give the asset to the new owner, signed and paid by
    /// the current owner. The engine refuses it while the asset is frozen.
    pub fn transfer_asset(&self) -> (r: Result<Invocation, TrackError>)
        ensures
            transfer_outcome(*self, r),
    {
        check_program_accounts(&self.system_program, &self.mpl_core_program)?;
        let request = EngineRequest::Transfer {
            asset: self.asset,
            collection: self.collection,
            payer: self.current_owner,
            authority: self.current_owner,
            new_owner: self.new_owner,
        };
        Ok(
            Invocation {
                program: self.mpl_core_program,
                system_program: self.system_program,
                request,
                signer_seeds: None,
            },
        )
    }
}

/// A delegate given no controller at mint time is controlled by the
/// collection's derived authority, not by the minting user (unless the two
/// are one address).
pub proof fn lemma_mint_defaults_to_derived(
    accounts: MintAsset,
    program_id: Address,
    bump: u8,
    freeze_authority: Option<Address>,
    burn_authority: Option<Address>,
    inv: Invocation,
)
    requires
        asset_mint_outcome(
            accounts,
            program_id,
            bump,
            freeze_authority,
            burn_authority,
            Ok(inv),
        ),
    ensures
        inv.request matches EngineRequest::CreateAsset { plugins, .. } && {
            &&& freeze_authority is None ==> (plugins@[1].authority matches Some(f) && Some(f@)
                == derived_authority(program_id@, accounts.collection@, bump))
            &&& burn_authority is None ==> (plugins@[2].authority matches Some(b) && Some(b@)
                == derived_authority(program_id@, accounts.collection@, bump))
            &&& freeze_authority is None && Some(accounts.user@) != derived_authority(
                program_id@,
                accounts.collection@,
                bump,
            ) ==> plugins@[1].authority != Some(accounts.user)
        },
{
}

} // verus!
