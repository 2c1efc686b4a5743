//! An in-memory asset engine that applies the program's requests the way
//! the external engine is meant to: it keeps collection and asset records,
//! enforces the delegates' controllers and the frozen state, and treats a
//! burned asset as gone for good. It lets the program's logic be exercised
//! end to end without a live engine.
use vstd::prelude::*;
use crate::address::Address;
use crate::engine::{EngineRequest, Invocation};
use crate::keyed::{keyed, lemma_keyed_absent, lemma_keyed_last_match, lemma_keyed_push, lemma_keyed_update};
use crate::authority::derived_authority;
use crate::instructions::{asset_mint_outcome, MintAsset};
use crate::plugins::{is_minted_plugin_list, resolved_authority, Plugin, PluginAuthorityPair};

verus! {

/// Where an asset stands in its lifecycle.
#[derive(Clone, Copy, Debug, PartialEq, Eq, Structural)]
pub enum AssetState {
    Unfrozen,
    Frozen,
    /// Destroyed; no operation applies any more.
    Burned,
}

/// A collection as the engine records it.
#[derive(Clone, Copy, Debug, PartialEq, Eq)]
pub struct CollectionRecord {
    pub id: Address,
    pub update_authority: Address,
}

/// An asset as the engine records it.
#[derive(Clone, Copy, Debug, PartialEq, Eq)]
pub struct AssetRecord {
    pub id: Address,
    pub owner: Address,
    pub collection: Option<Address>,
    /// The controller of the asset's freeze delegate.
    pub freeze_authority: Option<Address>,
    /// The controller of the asset's burn delegate.
    pub burn_authority: Option<Address>,
    pub state: AssetState,
}

/// Why the engine refused a request.
#[derive(Clone, Copy, Debug, PartialEq, Eq, Structural)]
pub enum EngineError {
    /// A record with that identity exists already.
    AlreadyExists,
    CollectionNotFound,
    AssetNotFound,
    /// The asset has been burned.
    AssetBurned,
    /// The collection named is not the asset's.
    CollectionMismatch,
    /// The signer does not hold the role the request needs.
    InvalidAuthority,
    /// The asset is frozen and cannot be transferred.
    AssetFrozen,
}

/// The engine's records.
pub struct Ledger {
    pub collections: Vec<CollectionRecord>,
    pub assets: Vec<AssetRecord>,
}

pub open spec fn collection_key() -> spec_fn(CollectionRecord) -> Seq<u8> {
    |c: CollectionRecord| c.id@
}

pub open spec fn asset_key() -> spec_fn(AssetRecord) -> Seq<u8> {
    |a: AssetRecord| a.id@
}

/// An optional address, compared by its bytes.
pub open spec fn opt_view(a: Option<Address>) -> Option<Seq<u8>> {
    match a {
        Some(x) => Some(x@),
        None => None,
    }
}

/// Whether `p` is a delegate of the kind asked for.
pub open spec fn is_delegate(p: PluginAuthorityPair, burn: bool) -> bool {
    if burn {
        p.plugin is BurnDelegate
    } else {
        p.plugin is FreezeDelegate
    }
}

/// The first delegate of the kind asked for in a plugin list.
pub open spec fn first_delegate(plugins: Seq<PluginAuthorityPair>, burn: bool) -> Option<
    PluginAuthorityPair,
>
    decreases plugins.len(),
{
    if plugins.len() == 0 {
        None
    } else if is_delegate(plugins[0], burn) {
        Some(plugins[0])
    } else {
        first_delegate(plugins.drop_first(), burn)
    }
}

/// The controller of the first delegate of a kind, if there is one.
pub open spec fn delegate_authority(plugins: Seq<PluginAuthorityPair>, burn: bool) -> Option<
    Address,
> {
    match first_delegate(plugins, burn) {
        Some(p) => p.authority,
        None => None,
    }
}

/// The state a new asset starts in: frozen only if its freeze delegate says so.
pub open spec fn initial_state(plugins: Seq<PluginAuthorityPair>) -> AssetState {
    match first_delegate(plugins, false) {
        Some(p) => if p.plugin == (Plugin::FreezeDelegate { frozen: true }) {
            AssetState::Frozen
        } else {
            AssetState::Unfrozen
        },
        None => AssetState::Unfrozen,
    }
}

/// The record of a newly created asset.
pub open spec fn minted_record(
    asset: Address,
    owner: Address,
    collection: Option<Address>,
    plugins: Seq<PluginAuthorityPair>,
) -> AssetRecord {
    AssetRecord {
        id: asset,
        owner,
        collection,
        freeze_authority: delegate_authority(plugins, false),
        burn_authority: delegate_authority(plugins, true),
        state: initial_state(plugins),
    }
}

/// Whether `signer` controls a delegate with controller `controller`.
pub open spec fn controls(controller: Option<Address>, signer: Address) -> bool {
    controller matches Some(c) && c@ == signer@
}

/// The refusal owed to a request on an existing asset, before its roles are
/// looked at: it must exist, not be burned, and be named with its collection.
pub open spec fn asset_error(
    assets: Map<Seq<u8>, AssetRecord>,
    asset: Address,
    collection: Option<Address>,
) -> Option<EngineError> {
    if !assets.contains_key(asset@) {
        Some(EngineError::AssetNotFound)
    } else if assets[asset@].state == AssetState::Burned {
        Some(EngineError::AssetBurned)
    } else if opt_view(assets[asset@].collection) != opt_view(collection) {
        Some(EngineError::CollectionMismatch)
    } else {
        None
    }
}

/// The record with its state replaced.
pub open spec fn with_state(r: AssetRecord, state: AssetState) -> AssetRecord {
    AssetRecord { state, ..r }
}

/// The record with its owner replaced.
pub open spec fn with_owner(r: AssetRecord, owner: Address) -> AssetRecord {
    AssetRecord { owner, ..r }
}

/// What the engine makes of a request: the new collection and asset maps,
/// or its refusal.
pub open spec fn engine_step(
    cols: Map<Seq<u8>, CollectionRecord>,
    assets: Map<Seq<u8>, AssetRecord>,
    req: EngineRequest,
) -> Result<(Map<Seq<u8>, CollectionRecord>, Map<Seq<u8>, AssetRecord>), EngineError> {
    match req {
        EngineRequest::CreateCollection { collection, update_authority, .. } => {
            if cols.contains_key(collection@) {
                Err(EngineError::AlreadyExists)
            } else {
                Ok(
                    (
                        cols.insert(
                            collection@,
                            CollectionRecord { id: collection, update_authority },
                        ),
                        assets,
                    ),
                )
            }
        },
        EngineRequest::CreateAsset { asset, collection, authority, owner, plugins, .. } => {
            if assets.contains_key(asset@) {
                Err(EngineError::AlreadyExists)
            } else if collection matches Some(c) && !cols.contains_key(c@) {
                Err(EngineError::CollectionNotFound)
            } else if collection matches Some(c) && cols[c@].update_authority@ != authority@ {
                Err(EngineError::InvalidAuthority)
            } else {
                Ok((cols, assets.insert(asset@, minted_record(asset, owner, collection, plugins@))))
            }
        },
        EngineRequest::UpdateFreeze { asset, collection, authority, frozen, .. } => {
            match asset_error(assets, asset, collection) {
                Some(e) => Err(e),
                None => if !controls(assets[asset@].freeze_authority, authority) {
                    Err(EngineError::InvalidAuthority)
                } else {
                    let state = if frozen {
                        AssetState::Frozen
                    } else {
                        AssetState::Unfrozen
                    };
                    Ok((cols, assets.insert(asset@, with_state(assets[asset@], state))))
                },
            }
        },
        EngineRequest::Burn { asset, collection, authority, .. } => {
            match asset_error(assets, asset, collection) {
                Some(e) => Err(e),
                None => if !controls(assets[asset@].burn_authority, authority) {
                    Err(EngineError::InvalidAuthority)
                } else {
                    Ok(
                        (
                            cols,
                            assets.insert(asset@, with_state(assets[asset@], AssetState::Burned)),
                        ),
                    )
                },
            }
        },
        EngineRequest::Transfer { asset, collection, authority, new_owner, .. } => {
            match asset_error(assets, asset, collection) {
                Some(e) => Err(e),
                None => if assets[asset@].owner@ != authority@ {
                    Err(EngineError::InvalidAuthority)
                } else if assets[asset@].state == AssetState::Frozen {
                    Err(EngineError::AssetFrozen)
                } else {
                    Ok((cols, assets.insert(asset@, with_owner(assets[asset@], new_owner))))
                },
            }
        },
    }
}

/// Finds the first delegate of a kind in a plugin list.
fn find_delegate(plugins: &Vec<PluginAuthorityPair>, burn: bool) -> (r: Option<usize>)
    ensures
        match r {
            Some(i) => i < plugins@.len() && first_delegate(plugins@, burn) == Some(plugins@[i as int]),
            None => first_delegate(plugins@, burn) is None,
        },
{
    let mut i: usize = 0;
    assert(plugins@.subrange(0, plugins@.len() as int) =~= plugins@);
    while i < plugins.len()
        invariant
            i <= plugins@.len(),
            first_delegate(plugins@, burn) == first_delegate(
                plugins@.subrange(i as int, plugins@.len() as int),
                burn,
            ),
        decreases plugins@.len() - i,
    {
        let rest = Ghost(plugins@.subrange(i as int, plugins@.len() as int));
        assert(rest@[0] == plugins@[i as int]);
        let found = match &plugins[i].plugin {
            Plugin::FreezeDelegate { .. } => !burn,
            Plugin::BurnDelegate => burn,
            Plugin::Attributes { .. } => false,
        };
        if found {
            return Some(i);
        }
        assert(rest@.drop_first() =~= plugins@.subrange(i + 1, plugins@.len() as int));
        i = i + 1;
    }
    assert(plugins@.subrange(i as int, plugins@.len() as int).len() == 0);
    None
}

/// The record of a newly created asset, read from its plugins.
fn new_asset_record(
    asset: Address,
    owner: Address,
    collection: Option<Address>,
    plugins: &Vec<PluginAuthorityPair>,
) -> (r: AssetRecord)
    ensures
        r == minted_record(asset, owner, collection, plugins@),
{
    let (freeze_authority, state) = match find_delegate(plugins, false) {
        Some(i) => {
            let state = match &plugins[i].plugin {
                Plugin::FreezeDelegate { frozen } => if *frozen {
                    AssetState::Frozen
                } else {
                    AssetState::Unfrozen
                },
                _ => AssetState::Unfrozen,
            };
            (plugins[i].authority, state)
        },
        None => (None, AssetState::Unfrozen),
    };
    let burn_authority = match find_delegate(plugins, true) {
        Some(i) => plugins[i].authority,
        None => None,
    };
    AssetRecord { id: asset, owner, collection, freeze_authority, burn_authority, state }
}

/// Whether two optional addresses name the same account, or both none.
fn same_option(a: &Option<Address>, b: &Option<Address>) -> (r: bool)
    ensures
        r == (opt_view(*a) == opt_view(*b)),
{
    match (a, b) {
        (Some(x), Some(y)) => x.same_as(y),
        (None, None) => true,
        _ => false,
    }
}

impl Ledger {
    /// The collections by identity.
    pub open spec fn collections_view(&self) -> Map<Seq<u8>, CollectionRecord> {
        keyed(self.collections@, collection_key())
    }

    /// The assets by identity, burned ones included.
    pub open spec fn assets_view(&self) -> Map<Seq<u8>, AssetRecord> {
        keyed(self.assets@, asset_key())
    }

    /// A ledger with no records.
    pub fn new() -> (r: Ledger)
        ensures
            r.collections_view() == Map::<Seq<u8>, CollectionRecord>::empty(),
            r.assets_view() == Map::<Seq<u8>, AssetRecord>::empty(),
    {
        Ledger { collections: Vec::new(), assets: Vec::new() }
    }

    fn find_collection(&self, id: &Address) -> (r: Option<usize>)
        ensures
            match r {
                Some(k) => k < self.collections@.len() && self.collections_view().contains_key(id@)
                    && self.collections_view()[id@] == self.collections@[k as int]
                    && self.collections@[k as int].id@ == id@,
                None => !self.collections_view().contains_key(id@),
            },
    {
        let mut i: usize = self.collections.len();
        while i > 0
            invariant
                i <= self.collections@.len(),
                forall|j: int| i <= j < self.collections@.len() ==> #[trigger] self.collections@[j].id@ != id@,
            decreases i,
        {
            i = i - 1;
            if self.collections[i].id.same_as(id) {
                proof {
                    lemma_keyed_last_match(self.collections@, collection_key(), i as int);
                }
                return Some(i);
            }
        }
        proof {
            lemma_keyed_absent(self.collections@, collection_key(), id@);
        }
        None
    }

    fn find_asset(&self, id: &Address) -> (r: Option<usize>)
        ensures
            match r {
                Some(k) => {
                    &&& k < self.assets@.len()
                    &&& self.assets_view().contains_key(id@)
                    &&& self.assets_view()[id@] == self.assets@[k as int]
                    &&& self.assets@[k as int].id@ == id@
                    &&& forall|j: int| k < j < self.assets@.len() ==> #[trigger] self.assets@[j].id@ != id@
                },
                None => !self.assets_view().contains_key(id@),
            },
    {
        let mut i: usize = self.assets.len();
        while i > 0
            invariant
                i <= self.assets@.len(),
                forall|j: int| i <= j < self.assets@.len() ==> #[trigger] self.assets@[j].id@ != id@,
            decreases i,
        {
            i = i - 1;
            if self.assets[i].id.same_as(id) {
                proof {
                    lemma_keyed_last_match(self.assets@, asset_key(), i as int);
                }
                return Some(i);
            }
        }
        proof {
            lemma_keyed_absent(self.assets@, asset_key(), id@);
        }
        None
    }

    /// The record of the collection with this identity, if there is one.
    pub fn collection(&self, id: &Address) -> (r: Option<CollectionRecord>)
        ensures
            match r {
                Some(c) => self.collections_view().contains_key(id@) && self.collections_view()[id@] == c,
                None => !self.collections_view().contains_key(id@),
            },
    {
        match self.find_collection(id) {
            Some(k) => Some(self.collections[k]),
            None => None,
        }
    }

    /// The record of the asset with this identity, if there is one.
    pub fn asset(&self, id: &Address) -> (r: Option<AssetRecord>)
        ensures
            match r {
                Some(a) => self.assets_view().contains_key(id@) && self.assets_view()[id@] == a,
                None => !self.assets_view().contains_key(id@),
            },
    {
        match self.find_asset(id) {
            Some(k) => Some(self.assets[k]),
            None => None,
        }
    }

    /// Replaces the record at `k`, the last with its identity, by one with
    /// the same identity.
    fn replace_asset(&mut self, k: usize, rec: AssetRecord)
        requires
            k < old(self).assets@.len(),
            rec.id@ == old(self).assets@[k as int].id@,
            forall|j: int|
                k < j < old(self).assets@.len() ==> #[trigger] old(self).assets@[j].id@ != rec.id@,
        ensures
            final(self).collections_view() == old(self).collections_view(),
            final(self).assets_view() == old(self).assets_view().insert(rec.id@, rec),
    {
        proof {
            lemma_keyed_update(self.assets@, asset_key(), k as int, rec);
        }
        self.assets.set(k, rec);
    }

    /// Applies one invocation the way the asset engine does: the request's
    /// change is made in full, or the ledger is left as it was and the
    /// refusal is returned.
    pub fn apply(&mut self, inv: Invocation) -> (r: Result<(), EngineError>)
        ensures
            match engine_step(old(self).collections_view(), old(self).assets_view(), inv.request) {
                Ok((c, a)) => r is Ok && final(self).collections_view() == c
                    && final(self).assets_view() == a,
                Err(e) => r == Err::<(), EngineError>(e) && final(self).collections_view()
                    == old(self).collections_view() && final(self).assets_view()
                    == old(self).assets_view(),
            },
    {
        match inv.request {
            EngineRequest::CreateCollection { collection, update_authority, .. } => {
                if self.find_collection(&collection).is_some() {
                    return Err(EngineError::AlreadyExists);
                }
                let rec = CollectionRecord { id: collection, update_authority };
                proof {
                    lemma_keyed_push(self.collections@, collection_key(), rec);
                }
                self.collections.push(rec);
                Ok(())
            },
            EngineRequest::CreateAsset { asset, collection, authority, owner, plugins, .. } => {
                if self.find_asset(&asset).is_some() {
                    return Err(EngineError::AlreadyExists);
                }
                if let Some(c) = collection {
                    match self.find_collection(&c) {
                        None => {
                            return Err(EngineError::CollectionNotFound);
                        },
                        Some(k) => {
                            if !self.collections[k].update_authority.same_as(&authority) {
                                return Err(EngineError::InvalidAuthority);
                            }
                        },
                    }
                }
                let rec = new_asset_record(asset, owner, collection, &plugins);
                proof {
                    lemma_keyed_push(self.assets@, asset_key(), rec);
                }
                self.assets.push(rec);
                Ok(())
            },
            EngineRequest::UpdateFreeze { asset, collection, authority, frozen, .. } => {
                let k = self.checked_asset(&asset, &collection)?;
                let rec = self.assets[k];
                let allowed = match rec.freeze_authority {
                    Some(c) => c.same_as(&authority),
                    None => false,
                };
                if !allowed {
                    return Err(EngineError::InvalidAuthority);
                }
                let state = if frozen {
                    AssetState::Frozen
                } else {
                    AssetState::Unfrozen
                };
                self.replace_asset(k, AssetRecord { state, ..rec });
                Ok(())
            },
            EngineRequest::Burn { asset, collection, authority, .. } => {
                let k = self.checked_asset(&asset, &collection)?;
                let rec = self.assets[k];
                let allowed = match rec.burn_authority {
                    Some(c) => c.same_as(&authority),
                    None => false,
                };
                if !allowed {
                    return Err(EngineError::InvalidAuthority);
                }
                self.replace_asset(k, AssetRecord { state: AssetState::Burned, ..rec });
                Ok(())
            },
            EngineRequest::Transfer { asset, collection, authority, new_owner, .. } => {
                let k = self.checked_asset(&asset, &collection)?;
                let rec = self.assets[k];
                if !rec.owner.same_as(&authority) {
                    return Err(EngineError::InvalidAuthority);
                }
                if rec.state == AssetState::Frozen {
                    return Err(EngineError::AssetFrozen);
                }
                self.replace_asset(k, AssetRecord { owner: new_owner, ..rec });
                Ok(())
            },
        }
    }

    /// Finds a live asset named with its own collection.
    fn checked_asset(&self, asset: &Address, collection: &Option<Address>) -> (r: Result<
        usize,
        EngineError,
    >)
        ensures
            match r {
                Ok(k) => {
                    &&& asset_error(self.assets_view(), *asset, *collection) is None
                    &&& k < self.assets@.len()
                    &&& self.assets_view()[asset@] == self.assets@[k as int]
                    &&& self.assets@[k as int].id@ == asset@
                    &&& forall|j: int|
                        k < j < self.assets@.len() ==> #[trigger] self.assets@[j].id@ != asset@
                },
                Err(e) => asset_error(self.assets_view(), *asset, *collection) == Some(e),
            },
    {
        match self.find_asset(asset) {
            None => Err(EngineError::AssetNotFound),
            Some(k) => {
                let rec = self.assets[k];
                if rec.state == AssetState::Burned {
                    Err(EngineError::AssetBurned)
                } else if !same_option(&rec.collection, collection) {
                    Err(EngineError::CollectionMismatch)
                } else {
                    Ok(k)
                }
            },
        }
    }
}

/// The asset a request is about, for the requests that name one.
pub open spec fn request_asset(req: EngineRequest) -> Option<Address> {
    match req {
        EngineRequest::CreateCollection { .. } => None,
        EngineRequest::CreateAsset { asset, .. } => Some(asset),
        EngineRequest::UpdateFreeze { asset, .. } => Some(asset),
        EngineRequest::Burn { asset, .. } => Some(asset),
        EngineRequest::Transfer { asset, .. } => Some(asset),
    }
}

/// The maps after a request: changed as the engine says, or unchanged when
/// it refuses.
pub open spec fn after(
    cols: Map<Seq<u8>, CollectionRecord>,
    assets: Map<Seq<u8>, AssetRecord>,
    req: EngineRequest,
) -> (Map<Seq<u8>, CollectionRecord>, Map<Seq<u8>, AssetRecord>) {
    match engine_step(cols, assets, req) {
        Ok(p) => p,
        Err(_) => (cols, assets),
    }
}

/// A frozen asset cannot be transferred: once a freeze of it has been
/// applied, a transfer of it is refused.
pub proof fn lemma_freeze_then_transfer_refused(
    cols: Map<Seq<u8>, CollectionRecord>,
    assets: Map<Seq<u8>, AssetRecord>,
    freeze: EngineRequest,
    transfer: EngineRequest,
)
    requires
        freeze matches EngineRequest::UpdateFreeze { frozen, .. } && frozen,
        transfer is Transfer,
        request_asset(freeze) matches Some(x) && request_asset(transfer) matches Some(y) && x@
            == y@,
        engine_step(cols, assets, freeze) is Ok,
    ensures
        engine_step(after(cols, assets, freeze).0, after(cols, assets, freeze).1, transfer) is Err,
{
}

/// Once an unfreeze of an asset has been applied, its owner can transfer it,
/// naming its collection.
pub proof fn lemma_unfreeze_then_transfer_accepted(
    cols: Map<Seq<u8>, CollectionRecord>,
    assets: Map<Seq<u8>, AssetRecord>,
    unfreeze: EngineRequest,
    transfer: EngineRequest,
)
    requires
        unfreeze matches EngineRequest::UpdateFreeze { frozen, .. } && !frozen,
        engine_step(cols, assets, unfreeze) is Ok,
        unfreeze matches EngineRequest::UpdateFreeze { asset: x, collection: cx, .. }
            && transfer matches EngineRequest::Transfer { asset: y, collection: cy, authority, .. }
            && x@ == y@ && opt_view(cx) == opt_view(cy) && authority@ == assets[x@].owner@,
    ensures
        engine_step(after(cols, assets, unfreeze).0, after(cols, assets, unfreeze).1, transfer) is Ok,
{
}

/// Burning is final: once a burn of an asset has been applied, every later
/// request about that asset is refused, a new creation under its identity
/// included.
pub proof fn lemma_burn_is_final(
    cols: Map<Seq<u8>, CollectionRecord>,
    assets: Map<Seq<u8>, AssetRecord>,
    burn: EngineRequest,
    next: EngineRequest,
)
    requires
        burn is Burn,
        engine_step(cols, assets, burn) is Ok,
        request_asset(burn) matches Some(x) && request_asset(next) matches Some(y) && x@ == y@,
    ensures
        engine_step(after(cols, assets, burn).0, after(cols, assets, burn).1, next) is Err,
{
}

/// A burned asset stays burned whatever is asked afterwards.
pub proof fn lemma_burned_stays_burned(
    cols: Map<Seq<u8>, CollectionRecord>,
    assets: Map<Seq<u8>, AssetRecord>,
    id: Seq<u8>,
    next: EngineRequest,
)
    requires
        assets.contains_key(id),
        assets[id].state == AssetState::Burned,
    ensures
        after(cols, assets, next).1.contains_key(id),
        after(cols, assets, next).1[id] == assets[id],
{
}

/// Burning one asset leaves every other asset and every collection as it
/// was.
pub proof fn lemma_burn_touches_only_its_asset(
    cols: Map<Seq<u8>, CollectionRecord>,
    assets: Map<Seq<u8>, AssetRecord>,
    burn: EngineRequest,
    other: Seq<u8>,
)
    requires
        burn is Burn,
        request_asset(burn) matches Some(x) && x@ != other,
    ensures
        after(cols, assets, burn).0 == cols,
        after(cols, assets, burn).1.contains_key(other) == assets.contains_key(other),
        assets.contains_key(other) ==> after(cols, assets, burn).1[other] == assets[other],
{
}

/// An asset minted with the composed plugin list starts unfrozen, with its
/// delegates controlled by the resolved authorities.
pub proof fn lemma_minted_list_delegates(
    plugins: Seq<PluginAuthorityPair>,
    derived: Address,
    freeze_authority: Option<Address>,
    burn_authority: Option<Address>,
)
    requires
        is_minted_plugin_list(plugins, derived, freeze_authority, burn_authority),
    ensures
        delegate_authority(plugins, false) == Some(resolved_authority(freeze_authority, derived)),
        delegate_authority(plugins, true) == Some(resolved_authority(burn_authority, derived)),
        initial_state(plugins) == AssetState::Unfrozen,
{
    let rest = plugins.drop_first();
    assert(rest[0] == plugins[1]);
    assert(rest.drop_first()[0] == plugins[2]);
    assert(first_delegate(plugins, false) == first_delegate(rest, false));
    assert(first_delegate(plugins, true) == first_delegate(rest, true));
    assert(first_delegate(rest, true) == first_delegate(rest.drop_first(), true));
}

/// Minting into a collection with an explicit freeze controller and no burn
/// controller: the new asset's burn delegate is the collection's derived
/// authority, the freeze controller can freeze it, and any other signer,
/// the minting user among them, cannot.
pub proof fn lemma_explicit_freeze_controller(
    cols: Map<Seq<u8>, CollectionRecord>,
    assets: Map<Seq<u8>, AssetRecord>,
    accounts: MintAsset,
    program_id: Address,
    bump: u8,
    freeze_controller: Address,
    inv: Invocation,
    freeze: EngineRequest,
)
    requires
        asset_mint_outcome(
            accounts,
            program_id,
            bump,
            Some(freeze_controller),
            None,
            Ok(inv),
        ),
        engine_step(cols, assets, inv.request) is Ok,
        freeze matches EngineRequest::UpdateFreeze { asset, collection, .. } && asset@
            == accounts.mint@ && opt_view(collection) == opt_view(Some(accounts.collection)),
    ensures
        ({
            let minted = after(cols, assets, inv.request).1[accounts.mint@];
            &&& minted.burn_authority matches Some(b) && Some(b@) == derived_authority(
                program_id@,
                accounts.collection@,
                bump,
            )
            &&& minted.freeze_authority == Some(freeze_controller)
        }),
        freeze matches EngineRequest::UpdateFreeze { authority, .. } ==> (engine_step(
            after(cols, assets, inv.request).0,
            after(cols, assets, inv.request).1,
            freeze,
        ) is Ok <==> authority@ == freeze_controller@),
{
    if let EngineRequest::CreateAsset { plugins, .. } = inv.request {
        lemma_minted_list_delegates(plugins@, accounts.authority, Some(freeze_controller), None);
    }
}

} // verus!
