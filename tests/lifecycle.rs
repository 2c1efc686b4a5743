use anchor_lang::prelude::Pubkey;
use metaplex_track::authority::{derive_authority, DerivedAuthority};
use metaplex_track::ledger::{AssetState, EngineError, Ledger};
use metaplex_track::plugins::Plugin;
use metaplex_track::{
    burn_asset, create_collection, freeze_asset, mint_asset, transfer_asset, unfreeze_asset,
    Address, BurnAsset, EngineRequest, FreezeAsset, MintAsset, MintCollection, TrackError,
    TransferAsset,
};

const PROGRAM: [u8; 32] = [
    22, 142, 251, 51, 218, 144, 24, 100, 105, 103, 51, 118, 128, 241, 195, 66, 92, 251, 205, 161,
    139, 145, 125, 220, 173, 233, 104, 105, 166, 247, 115, 225,
];
const SYSTEM: [u8; 32] = [0u8; 32];

fn addr(b: u8) -> Address {
    Address::new([b; 32])
}

fn program() -> Address {
    Address::new(PROGRAM)
}

fn engine() -> Address {
    Address::new(mpl_core::ID.to_bytes())
}

fn bump_for(collection: &Address) -> (Address, u8) {
    let (key, bump) = Pubkey::find_program_address(
        &[b"authority", collection.bytes.as_ref()],
        &Pubkey::new_from_array(PROGRAM),
    );
    (Address::new(key.to_bytes()), bump)
}

fn collection_accounts(user: Address, collection: Address) -> (MintCollection, u8) {
    let (authority, bump) = bump_for(&collection);
    (
        MintCollection {
            user,
            collection,
            authority,
            system_program: Address::new(SYSTEM),
            mpl_core_program: engine(),
        },
        bump,
    )
}

fn mint_accounts(user: Address, mint: Address, collection: Address) -> (MintAsset, u8) {
    let (authority, bump) = bump_for(&collection);
    (
        MintAsset {
            user,
            mint,
            collection,
            authority,
            system_program: Address::new(SYSTEM),
            mpl_core_program: engine(),
        },
        bump,
    )
}

fn freeze_accounts(signer: Address, asset: Address, collection: Address) -> FreezeAsset {
    FreezeAsset {
        freeze_authority: signer,
        asset,
        collection: Some(collection),
        system_program: Address::new(SYSTEM),
        mpl_core_program: engine(),
    }
}

fn burn_accounts(signer: Address, asset: Address, collection: Address) -> BurnAsset {
    BurnAsset {
        burn_authority: signer,
        asset,
        collection: Some(collection),
        system_program: Address::new(SYSTEM),
        mpl_core_program: engine(),
    }
}

fn transfer_accounts(owner: Address, to: Address, asset: Address, collection: Address) -> TransferAsset {
    TransferAsset {
        current_owner: owner,
        new_owner: to,
        asset,
        collection: Some(collection),
        system_program: Address::new(SYSTEM),
        mpl_core_program: engine(),
    }
}

/// A ledger holding collection `c` and asset `a` minted into it by `user`.
fn ledger_with_asset(
    user: Address,
    c: Address,
    a: Address,
    freeze: Option<Address>,
    burn: Option<Address>,
) -> Ledger {
    let mut ledger = Ledger::new();
    let (accounts, bump) = collection_accounts(user, c);
    let inv = create_collection(&accounts, &program(), bump).unwrap();
    assert_eq!(ledger.apply(inv), Ok(()));
    let (accounts, bump) = mint_accounts(user, a, c);
    let inv = mint_asset(&accounts, &program(), bump, freeze, burn).unwrap();
    assert_eq!(ledger.apply(inv), Ok(()));
    ledger
}

#[test]
fn collection_request_names_derived_authority() {
    let (accounts, bump) = collection_accounts(addr(1), addr(2));
    let inv = accounts.mint_core_collection(&program(), bump).unwrap();
    assert_eq!(inv.program, engine());
    assert_eq!(inv.system_program, Address::new(SYSTEM));
    let mut bundle = vec![b"authority".to_vec(), vec![2u8; 32]];
    bundle.push(vec![bump]);
    assert_eq!(inv.signer_seeds, Some(bundle));
    match inv.request {
        EngineRequest::CreateCollection { collection, update_authority, payer, name, uri } => {
            assert_eq!(collection, addr(2));
            assert_eq!(update_authority, accounts.authority);
            assert_eq!(payer, addr(1));
            assert_eq!(name, "Legder Collection");
            assert_eq!(uri, "https://myasset.com");
        }
        other => panic!("unexpected request {:?}", other),
    }
}

#[test]
fn collection_refuses_wrong_system_program() {
    let (mut accounts, bump) = collection_accounts(addr(1), addr(2));
    accounts.system_program = addr(9);
    assert_eq!(
        accounts.mint_core_collection(&program(), bump),
        Err(TrackError::WrongSystemProgram)
    );
}

#[test]
fn collection_refuses_wrong_engine_program() {
    let (mut accounts, bump) = collection_accounts(addr(1), addr(2));
    accounts.mpl_core_program = addr(9);
    assert_eq!(
        create_collection(&accounts, &program(), bump),
        Err(TrackError::WrongEngineProgram)
    );
}

#[test]
fn collection_refuses_foreign_authority_account() {
    let (mut accounts, bump) = collection_accounts(addr(1), addr(2));
    accounts.authority = addr(1);
    assert_eq!(
        create_collection(&accounts, &program(), bump),
        Err(TrackError::AuthorityMismatch)
    );
}

#[test]
fn collection_refuses_underivable_bump() {
    let (accounts, _) = collection_accounts(addr(1), addr(2));
    let mut bad = None;
    for bump in 0..=255u8 {
        if derive_authority(&program(), &addr(2), bump).is_err() {
            bad = Some(bump);
            break;
        }
    }
    assert_eq!(
        create_collection(&accounts, &program(), bad.unwrap()),
        Err(TrackError::AuthorityNotDerivable)
    );
}

#[test]
fn mint_request_carries_plugins_and_owner() {
    let k1 = addr(30);
    let (accounts, bump) = mint_accounts(addr(1), addr(3), addr(2));
    let inv = accounts.mint_core_asset(&program(), bump, Some(k1), None).unwrap();
    assert!(inv.signer_seeds.is_some());
    match inv.request {
        EngineRequest::CreateAsset {
            asset,
            collection,
            authority,
            payer,
            owner,
            update_authority,
            name,
            uri,
            plugins,
        } => {
            assert_eq!(asset, addr(3));
            assert_eq!(collection, Some(addr(2)));
            assert_eq!(authority, accounts.authority);
            assert_eq!(payer, addr(1));
            assert_eq!(owner, addr(1));
            assert_eq!(update_authority, None);
            assert_eq!(name, "My Asset");
            assert_eq!(uri, "https://myasset.com");
            assert_eq!(plugins.len(), 3);
            assert_eq!(plugins[1].authority, Some(k1));
            assert_eq!(plugins[2].plugin, Plugin::BurnDelegate);
            assert_eq!(plugins[2].authority, Some(accounts.authority));
        }
        other => panic!("unexpected request {:?}", other),
    }
}

#[test]
fn mint_refuses_wrong_engine_program() {
    let (mut accounts, bump) = mint_accounts(addr(1), addr(3), addr(2));
    accounts.mpl_core_program = addr(9);
    assert_eq!(
        mint_asset(&accounts, &program(), bump, None, None),
        Err(TrackError::WrongEngineProgram)
    );
}

#[test]
fn lifecycle_requests_name_their_signer() {
    let f = freeze_accounts(addr(4), addr(3), addr(2));
    let inv = freeze_asset(&f).unwrap();
    assert_eq!(
        inv.request,
        EngineRequest::UpdateFreeze {
            asset: addr(3),
            collection: Some(addr(2)),
            payer: addr(4),
            authority: addr(4),
            frozen: true
        }
    );
    assert_eq!(inv.signer_seeds, None);
    let inv = unfreeze_asset(&f).unwrap();
    assert_eq!(
        inv.request,
        EngineRequest::UpdateFreeze {
            asset: addr(3),
            collection: Some(addr(2)),
            payer: addr(4),
            authority: addr(4),
            frozen: false
        }
    );
    let b = burn_accounts(addr(5), addr(3), addr(2));
    let inv = burn_asset(&b).unwrap();
    assert_eq!(
        inv.request,
        EngineRequest::Burn {
            asset: addr(3),
            collection: Some(addr(2)),
            payer: addr(5),
            authority: addr(5)
        }
    );
    let t = transfer_accounts(addr(1), addr(6), addr(3), addr(2));
    let inv = transfer_asset(&t).unwrap();
    assert_eq!(
        inv.request,
        EngineRequest::Transfer {
            asset: addr(3),
            collection: Some(addr(2)),
            payer: addr(1),
            authority: addr(1),
            new_owner: addr(6)
        }
    );
}

#[test]
fn lifecycle_requests_check_program_accounts() {
    let mut f = freeze_accounts(addr(4), addr(3), addr(2));
    f.system_program = addr(9);
    assert_eq!(f.freeze_asset(), Err(TrackError::WrongSystemProgram));
    let mut b = burn_accounts(addr(5), addr(3), addr(2));
    b.mpl_core_program = addr(9);
    assert_eq!(b.burn_asset(), Err(TrackError::WrongEngineProgram));
    let mut t = transfer_accounts(addr(1), addr(6), addr(3), addr(2));
    t.mpl_core_program = addr(9);
    assert_eq!(t.transfer_asset(), Err(TrackError::WrongEngineProgram));
}

#[test]
fn freeze_then_transfer_is_refused() {
    let (user, c, a, k) = (addr(1), addr(2), addr(3), addr(4));
    let mut ledger = ledger_with_asset(user, c, a, Some(k), None);
    let inv = freeze_accounts(k, a, c).freeze_asset().unwrap();
    assert_eq!(ledger.apply(inv), Ok(()));
    assert_eq!(ledger.asset(&a).unwrap().state, AssetState::Frozen);
    let inv = transfer_accounts(user, addr(6), a, c).transfer_asset().unwrap();
    assert_eq!(ledger.apply(inv), Err(EngineError::AssetFrozen));
    assert_eq!(ledger.asset(&a).unwrap().owner, user);
}

#[test]
fn unfreeze_then_transfer_succeeds() {
    let (user, c, a, k) = (addr(1), addr(2), addr(3), addr(4));
    let mut ledger = ledger_with_asset(user, c, a, Some(k), None);
    let f = freeze_accounts(k, a, c);
    assert_eq!(ledger.apply(f.freeze_asset().unwrap()), Ok(()));
    assert_eq!(ledger.apply(f.unfreeze_asset().unwrap()), Ok(()));
    let inv = transfer_accounts(user, addr(6), a, c).transfer_asset().unwrap();
    assert_eq!(ledger.apply(inv), Ok(()));
    let rec = ledger.asset(&a).unwrap();
    assert_eq!(rec.owner, addr(6));
    assert_eq!(rec.state, AssetState::Unfrozen);
}

#[test]
fn burn_is_terminal() {
    let (user, c, a, k) = (addr(1), addr(2), addr(3), addr(4));
    let mut ledger = ledger_with_asset(user, c, a, Some(k), Some(k));
    assert_eq!(ledger.apply(burn_accounts(k, a, c).burn_asset().unwrap()), Ok(()));
    assert_eq!(ledger.asset(&a).unwrap().state, AssetState::Burned);
    let f = freeze_accounts(k, a, c);
    assert_eq!(ledger.apply(f.freeze_asset().unwrap()), Err(EngineError::AssetBurned));
    assert_eq!(ledger.apply(f.unfreeze_asset().unwrap()), Err(EngineError::AssetBurned));
    let t = transfer_accounts(user, addr(6), a, c);
    assert_eq!(ledger.apply(t.transfer_asset().unwrap()), Err(EngineError::AssetBurned));
    let b = burn_accounts(k, a, c);
    assert_eq!(ledger.apply(b.burn_asset().unwrap()), Err(EngineError::AssetBurned));
    let (accounts, bump) = mint_accounts(user, a, c);
    let inv = accounts.mint_core_asset(&program(), bump, None, None).unwrap();
    assert_eq!(ledger.apply(inv), Err(EngineError::AlreadyExists));
}

#[test]
fn omitted_freeze_authority_is_collection_authority() {
    let (user, c, a) = (addr(1), addr(2), addr(3));
    let ledger = ledger_with_asset(user, c, a, None, None);
    let (derived, _) = bump_for(&c);
    let rec = ledger.asset(&a).unwrap();
    assert_eq!(rec.freeze_authority, Some(derived));
    assert_ne!(rec.freeze_authority, Some(user));
    assert_eq!(rec.burn_authority, Some(derived));
}

#[test]
fn explicit_freeze_authority_scenario() {
    let (user, c, a, k1) = (addr(1), addr(2), addr(3), addr(4));
    let mut ledger = ledger_with_asset(user, c, a, Some(k1), None);
    let (_, bump) = bump_for(&c);
    let derived = derive_authority(&program(), &c, bump).unwrap();
    let rec = ledger.asset(&a).unwrap();
    assert_eq!(rec.burn_authority, Some(derived.address));
    let by_user = freeze_accounts(user, a, c).freeze_asset().unwrap();
    assert_eq!(ledger.apply(by_user), Err(EngineError::InvalidAuthority));
    assert_eq!(ledger.asset(&a).unwrap().state, AssetState::Unfrozen);
    let by_k1 = freeze_accounts(k1, a, c).freeze_asset().unwrap();
    assert_eq!(ledger.apply(by_k1), Ok(()));
    assert_eq!(ledger.asset(&a).unwrap().state, AssetState::Frozen);
}

#[test]
fn burning_one_asset_leaves_the_other() {
    let (user, c, a1, a2) = (addr(1), addr(2), addr(3), addr(4));
    let mut ledger = ledger_with_asset(user, c, a1, None, Some(user));
    let (accounts, bump) = mint_accounts(user, a2, c);
    let inv = mint_asset(&accounts, &program(), bump, None, Some(user)).unwrap();
    assert_eq!(ledger.apply(inv), Ok(()));
    let before = ledger.asset(&a2).unwrap();
    assert_eq!(ledger.apply(burn_accounts(user, a1, c).burn_asset().unwrap()), Ok(()));
    assert_eq!(ledger.asset(&a1).unwrap().state, AssetState::Burned);
    assert_eq!(ledger.asset(&a2).unwrap(), before);
    assert_eq!(before.state, AssetState::Unfrozen);
    assert!(ledger.collection(&c).is_some());
}

#[test]
fn engine_refusals() {
    let (user, c, a, k) = (addr(1), addr(2), addr(3), addr(4));
    let mut ledger = ledger_with_asset(user, c, a, Some(k), Some(k));
    // the same collection twice
    let (accounts, bump) = collection_accounts(user, c);
    let inv = create_collection(&accounts, &program(), bump).unwrap();
    assert_eq!(ledger.apply(inv), Err(EngineError::AlreadyExists));
    // a mint into a collection that does not exist
    let (accounts, bump) = mint_accounts(user, addr(8), addr(9));
    let inv = mint_asset(&accounts, &program(), bump, None, None).unwrap();
    assert_eq!(ledger.apply(inv), Err(EngineError::CollectionNotFound));
    // an asset that does not exist
    let inv = freeze_accounts(k, addr(8), c).freeze_asset().unwrap();
    assert_eq!(ledger.apply(inv), Err(EngineError::AssetNotFound));
    // the asset named without its collection
    let mut f = freeze_accounts(k, a, c);
    f.collection = None;
    assert_eq!(ledger.apply(f.freeze_asset().unwrap()), Err(EngineError::CollectionMismatch));
    // a transfer by someone who does not own the asset
    let inv = transfer_accounts(k, addr(6), a, c).transfer_asset().unwrap();
    assert_eq!(ledger.apply(inv), Err(EngineError::InvalidAuthority));
    // a burn by someone who does not control the burn delegate
    let inv = burn_accounts(user, a, c).burn_asset().unwrap();
    assert_eq!(ledger.apply(inv), Err(EngineError::InvalidAuthority));
    assert_eq!(ledger.asset(&a).unwrap().state, AssetState::Unfrozen);
}

#[test]
fn mint_into_collection_needs_its_update_authority() {
    let (user, c) = (addr(1), addr(2));
    let mut ledger = Ledger::new();
    let (accounts, bump) = collection_accounts(user, c);
    assert_eq!(ledger.apply(create_collection(&accounts, &program(), bump).unwrap()), Ok(()));
    // the second collection's authority is not the first one's
    let other = addr(12);
    let (other_accounts, other_bump) = mint_accounts(user, addr(3), other);
    let mut inv = mint_asset(&other_accounts, &program(), other_bump, None, None).unwrap();
    if let EngineRequest::CreateAsset { collection, .. } = &mut inv.request {
        *collection = Some(c);
    }
    assert_eq!(ledger.apply(inv), Err(EngineError::InvalidAuthority));
    assert!(ledger.asset(&addr(3)).is_none());
}

#[test]
fn creation_request_follows_given_authority() {
    let (mut accounts, _) = collection_accounts(addr(1), addr(2));
    accounts.authority = addr(20);
    let derived = DerivedAuthority { address: addr(20), bump: 3, signer_seeds: vec![vec![1, 2]] };
    let inv = accounts.creation_request(derived.clone()).unwrap();
    assert_eq!(inv.signer_seeds, Some(vec![vec![1, 2]]));
    match inv.request {
        EngineRequest::CreateCollection { update_authority, .. } => {
            assert_eq!(update_authority, addr(20))
        }
        other => panic!("unexpected request {:?}", other),
    }
    let elsewhere = DerivedAuthority { address: addr(21), ..derived };
    assert_eq!(accounts.creation_request(elsewhere), Err(TrackError::AuthorityMismatch));
}

#[test]
fn asset_request_follows_given_authority() {
    let (mut accounts, _) = mint_accounts(addr(1), addr(3), addr(2));
    accounts.authority = addr(20);
    let derived = DerivedAuthority { address: addr(20), bump: 3, signer_seeds: vec![vec![4]] };
    let inv = accounts.asset_request(derived.clone(), None, Some(addr(5))).unwrap();
    assert_eq!(inv.signer_seeds, Some(vec![vec![4]]));
    match inv.request {
        EngineRequest::CreateAsset { plugins, authority, .. } => {
            assert_eq!(authority, addr(20));
            assert_eq!(plugins[1].authority, Some(addr(20)));
            assert_eq!(plugins[2].authority, Some(addr(5)));
        }
        other => panic!("unexpected request {:?}", other),
    }
    let elsewhere = DerivedAuthority { address: addr(21), ..derived };
    assert_eq!(accounts.asset_request(elsewhere, None, None), Err(TrackError::AuthorityMismatch));
}
