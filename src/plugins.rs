//! Composition of the capability plugins attached to a newly minted asset.
use vstd::prelude::*;
use crate::address::Address;

verus! {

/// A key/value metadata entry.
#[derive(Clone, Debug, PartialEq, Eq)]
pub struct Attribute {
    pub key: String,
    pub value: String,
}

/// A capability attached to an asset.
#[derive(Clone, Debug, PartialEq, Eq)]
pub enum Plugin {
    /// Static key/value metadata.
    Attributes { attribute_list: Vec<Attribute> },
    /// Whether the asset is frozen; while it is, it cannot be transferred.
    FreezeDelegate { frozen: bool },
    /// The right to destroy the asset.
    BurnDelegate,
}

/// A plugin with the address that controls it, if any.
#[derive(Clone, Debug, PartialEq, Eq)]
pub struct PluginAuthorityPair {
    pub plugin: Plugin,
    pub authority: Option<Address>,
}

/// The controller chosen for a capability: an address given at mint time,
/// or else the collection's derived authority.
pub open spec fn resolved_authority(explicit: Option<Address>, derived: Address) -> Address {
    match explicit {
        Some(a) => a,
        None => derived,
    }
}

/// Whether `p` is the fixed metadata plugin: one attribute `Ledger` = `NFT`,
/// with no controlling authority.
pub open spec fn is_ledger_attributes(p: PluginAuthorityPair) -> bool {
    &&& p.authority is None
    &&& p.plugin matches Plugin::Attributes { attribute_list } && attribute_list@.len() == 1
        && attribute_list@[0].key@ == "Ledger"@ && attribute_list@[0].value@ == "NFT"@
}

/// Whether `plugins` is the list minted with the given authorities:
/// the metadata plugin, an unfrozen freeze delegate, and a burn delegate,
/// in that order, each delegate controlled by its resolved authority.
pub open spec fn is_minted_plugin_list(
    plugins: Seq<PluginAuthorityPair>,
    derived: Address,
    freeze_authority: Option<Address>,
    burn_authority: Option<Address>,
) -> bool {
    &&& plugins.len() == 3
    &&& is_ledger_attributes(plugins[0])
    &&& plugins[1].plugin == Plugin::FreezeDelegate { frozen: false }
    &&& plugins[1].authority == Some(resolved_authority(freeze_authority, derived))
    &&& plugins[2].plugin == Plugin::BurnDelegate
    &&& plugins[2].authority == Some(resolved_authority(burn_authority, derived))
}

/// Picks the controller of a capability: the explicit address if one was
/// given, else the derived authority.
pub fn resolve_authority(explicit: Option<Address>, derived: Address) -> (r: Address)
    ensures
        r == resolved_authority(explicit, derived),
{
    match explicit {
        Some(a) => a,
        None => derived,
    }
}

/// The metadata plugin every minted asset carries.
pub fn ledger_attributes() -> (r: PluginAuthorityPair)
    ensures
        is_ledger_attributes(r),
{
    let attribute = Attribute { key: "Ledger".to_string(), value: "NFT".to_string() };
    let attribute_list: Vec<Attribute> = vec![attribute];
    PluginAuthorityPair { plugin: Plugin::Attributes { attribute_list }, authority: None }
}

/// Builds the plugin list of a newly minted asset. Each delegate is
/// controlled by the address given for it, or by the collection's derived
/// authority when none is given.
pub fn compose_plugins(
    derived: Address,
    freeze_authority: Option<Address>,
    burn_authority: Option<Address>,
) -> (r: Vec<PluginAuthorityPair>)
    ensures
        is_minted_plugin_list(r@, derived, freeze_authority, burn_authority),
{
    let attributes = ledger_attributes();
    let freeze = PluginAuthorityPair {
        plugin: Plugin::FreezeDelegate { frozen: false },
        authority: Some(resolve_authority(freeze_authority, derived)),
    };
    let burn = PluginAuthorityPair {
        plugin: Plugin::BurnDelegate,
        authority: Some(resolve_authority(burn_authority, derived)),
    };
    let r: Vec<PluginAuthorityPair> = vec![attributes, freeze, burn];
    r
}

/// The delegate that is given no explicit controller at mint time is
/// controlled by the collection's derived authority, never by the minting
/// user unless that user is the derived authority.
pub proof fn lemma_omitted_authority_is_derived(
    plugins: Seq<PluginAuthorityPair>,
    derived: Address,
    freeze_authority: Option<Address>,
    burn_authority: Option<Address>,
    user: Address,
)
    requires
        is_minted_plugin_list(plugins, derived, freeze_authority, burn_authority),
    ensures
        freeze_authority is None ==> plugins[1].authority == Some(derived),
        freeze_authority is None && user != derived ==> plugins[1].authority != Some(user),
        burn_authority is None ==> plugins[2].authority == Some(derived),
        burn_authority is None && user != derived ==> plugins[2].authority != Some(user),
{
}

} // verus!
