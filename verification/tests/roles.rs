use gmsol::error::CoreError;
use gmsol::pubkey::Pubkey;
use gmsol::roles::{
    only_role, preprocess_close, RoleKey, RoleMetadata, RoleStore, MAX_MEMBERS, MAX_ROLES,
};

fn unique(seed: u8) -> Pubkey {
    let mut key = [0u8; 32];
    key[31] = seed;
    key
}

#[test]
fn grant_and_revoke_roles() {
    let mut store = RoleStore::new();
    let authority = unique(1);

    assert!(store.grant(&authority, RoleKey::GT_CONTROLLER).is_err());
    assert!(store.has_role(&authority, RoleKey::GT_CONTROLLER).is_err());

    store.enable_role(RoleKey::GT_CONTROLLER).unwrap();
    store.enable_role(RoleKey::MARKET_KEEPER).unwrap();

    store.grant(&authority, RoleKey::GT_CONTROLLER).unwrap();
    assert_eq!(store.has_role(&authority, RoleKey::GT_CONTROLLER), Ok(true));
    store.grant(&authority, RoleKey::MARKET_KEEPER).unwrap();
    assert_eq!(store.has_role(&authority, RoleKey::MARKET_KEEPER), Ok(true));
    assert_eq!(store.has_role(&authority, RoleKey::GT_CONTROLLER), Ok(true));

    store.revoke(&authority, RoleKey::GT_CONTROLLER).unwrap();
    assert_eq!(store.has_role(&authority, RoleKey::MARKET_KEEPER), Ok(true));
    assert_eq!(
        store.has_role(&authority, RoleKey::GT_CONTROLLER),
        Ok(false)
    );

    // This is the last role of the `authority`.
    // So the membership will be removed after revoking the role.
    store.revoke(&authority, RoleKey::MARKET_KEEPER).unwrap();
    assert!(store.has_role(&authority, RoleKey::MARKET_KEEPER).is_err());
    assert!(store.has_role(&authority, RoleKey::GT_CONTROLLER).is_err());

    store.disable_role(RoleKey::MARKET_KEEPER).unwrap();
    assert!(store.grant(&authority, RoleKey::MARKET_KEEPER).is_err());
    assert!(store.has_role(&authority, RoleKey::MARKET_KEEPER).is_err());
    store.enable_role(RoleKey::MARKET_KEEPER).unwrap();
    store.grant(&authority, RoleKey::MARKET_KEEPER).unwrap();
    assert_eq!(store.has_role(&authority, RoleKey::MARKET_KEEPER), Ok(true));
}

#[test]
fn enable_and_disable_role() {
    let mut store = RoleStore::new();
    let authority = unique(1);

    store.enable_role(RoleKey::GT_CONTROLLER).unwrap();
    store.grant(&authority, RoleKey::GT_CONTROLLER).unwrap();
    assert_eq!(store.has_role(&authority, RoleKey::GT_CONTROLLER), Ok(true));
    store.disable_role(RoleKey::GT_CONTROLLER).unwrap();
    assert!(store.has_role(&authority, RoleKey::GT_CONTROLLER).is_err());
    store.enable_role(RoleKey::GT_CONTROLLER).unwrap();
    assert_eq!(store.has_role(&authority, RoleKey::GT_CONTROLLER), Ok(true));
}

#[test]
fn each_failure_of_the_role_store_has_its_error() {
    let mut store = RoleStore::default();
    let member = unique(1);
    let stranger = unique(2);
    assert_eq!(store.grant(&member, RoleKey::ORDER_KEEPER), Err(CoreError::NotFound));
    assert_eq!(store.revoke(&member, RoleKey::ORDER_KEEPER), Err(CoreError::NotFound));
    assert_eq!(store.disable_role(RoleKey::ORDER_KEEPER), Ok(()));
    assert_eq!(store.num_roles(), 0);
    store.enable_role(RoleKey::ORDER_KEEPER).unwrap();
    store.enable_role(RoleKey::PRICE_KEEPER).unwrap();
    assert_eq!(
        store.enable_role(RoleKey::ORDER_KEEPER),
        Err(CoreError::PreconditionsAreNotMet)
    );
    assert_eq!(store.has_role(&member, RoleKey::ORDER_KEEPER), Err(CoreError::PermissionDenied));
    assert_eq!(store.revoke(&member, RoleKey::ORDER_KEEPER), Err(CoreError::PermissionDenied));
    store.grant(&member, RoleKey::ORDER_KEEPER).unwrap();
    assert_eq!(
        store.grant(&member, RoleKey::ORDER_KEEPER),
        Err(CoreError::PreconditionsAreNotMet)
    );
    assert_eq!(
        store.revoke(&member, RoleKey::PRICE_KEEPER),
        Err(CoreError::PreconditionsAreNotMet)
    );
    assert_eq!(store.has_role(&member, RoleKey::FEATURE_KEEPER), Err(CoreError::NotFound));
    assert_eq!(store.has_role(&stranger, RoleKey::ORDER_KEEPER), Err(CoreError::PermissionDenied));
    store.disable_role(RoleKey::ORDER_KEEPER).unwrap();
    assert_eq!(
        store.disable_role(RoleKey::ORDER_KEEPER),
        Err(CoreError::PreconditionsAreNotMet)
    );
    assert_eq!(
        store.has_role(&member, RoleKey::ORDER_KEEPER),
        Err(CoreError::PreconditionsAreNotMet)
    );
    assert_eq!(
        store.enabled_role_index(RoleKey::ORDER_KEEPER),
        Err(CoreError::PreconditionsAreNotMet)
    );
    // A disabled role can still be revoked.
    assert_eq!(store.revoke(&member, RoleKey::ORDER_KEEPER), Ok(()));
    assert_eq!(store.num_members(), 0);
    assert_eq!(
        store.enable_role("a name of a role that is too long for it"),
        Err(CoreError::ExceedMaxLengthLimit)
    );
}

#[test]
fn roles_take_their_bits_in_order() {
    let mut store = RoleStore::new();
    store.enable_role(RoleKey::RESTART_ADMIN).unwrap();
    store.enable_role(RoleKey::CONFIG_KEEPER).unwrap();
    store.enable_role(RoleKey::ORACLE_CONTROLLER).unwrap();
    assert_eq!(store.role_index(RoleKey::RESTART_ADMIN), Ok(Some(0)));
    assert_eq!(store.role_index(RoleKey::CONFIG_KEEPER), Ok(Some(1)));
    assert_eq!(store.enabled_role_index(RoleKey::ORACLE_CONTROLLER), Ok(Some(2)));
    assert_eq!(store.role_index(RoleKey::GT_CONTROLLER), Ok(None));
    assert_eq!(store.enabled_role_index(RoleKey::GT_CONTROLLER), Ok(None));
    assert_eq!(
        store.roles(),
        vec![RoleKey::RESTART_ADMIN, RoleKey::CONFIG_KEEPER, RoleKey::ORACLE_CONTROLLER]
    );
    let first = unique(1);
    let second = unique(2);
    store.grant(&first, RoleKey::ORACLE_CONTROLLER).unwrap();
    store.grant(&second, RoleKey::RESTART_ADMIN).unwrap();
    store.grant(&first, RoleKey::CONFIG_KEEPER).unwrap();
    assert_eq!(store.role_value(&first), Some(0b110));
    assert_eq!(store.role_value(&second), Some(0b001));
    assert_eq!(store.role_value(&unique(3)), None);
    assert_eq!(store.members(), vec![first, second]);
    store.revoke(&first, RoleKey::ORACLE_CONTROLLER).unwrap();
    assert_eq!(store.role_value(&first), Some(0b010));
    store.revoke(&first, RoleKey::CONFIG_KEEPER).unwrap();
    assert_eq!(store.members(), vec![second]);
    assert_eq!(store.num_members(), 1);
    assert_eq!(store.num_roles(), 3);
}

#[test]
fn the_tables_have_a_capacity() {
    let mut store = RoleStore::new();
    for i in 0..MAX_ROLES {
        store.enable_role(&format!("ROLE_{i}")).unwrap();
    }
    assert_eq!(store.enable_role("ONE_MORE"), Err(CoreError::ExceedMaxLengthLimit));
    assert_eq!(store.num_roles(), MAX_ROLES);
    assert_eq!(store.role_index("ROLE_31"), Ok(Some(31)));
    for i in 0..MAX_MEMBERS {
        store.grant(&unique(i as u8), "ROLE_31").unwrap();
    }
    assert_eq!(store.grant(&unique(200), "ROLE_31"), Err(CoreError::ExceedMaxLengthLimit));
    assert_eq!(store.grant(&unique(5), "ROLE_0"), Ok(()));
    assert_eq!(store.role_value(&unique(5)), Some((1 << 31) | 1));
    assert_eq!(store.num_members(), MAX_MEMBERS);
}

#[test]
fn role_metadata_is_enabled_when_new() {
    let mut metadata = RoleMetadata::new(RoleKey::MARKET_KEEPER, 3).unwrap();
    assert_eq!(metadata.name(), Ok(RoleKey::MARKET_KEEPER));
    assert_eq!(metadata.index(), 3);
    assert!(metadata.is_enabled());
    assert_eq!(metadata.enable(), Err(CoreError::PreconditionsAreNotMet));
    assert_eq!(metadata.disable(), Ok(()));
    assert!(!metadata.is_enabled());
    assert_eq!(metadata.disable(), Err(CoreError::PreconditionsAreNotMet));
    assert_eq!(metadata.enable(), Ok(()));
    assert!(RoleMetadata::new("12345678901234567890123456789012", 0).is_ok());
    assert!(matches!(
        RoleMetadata::new("123456789012345678901234567890123", 0),
        Err(CoreError::ExceedMaxLengthLimit)
    ));
    assert_eq!(RoleMetadata::ROLE_ENABLED, u8::MAX);
}

#[test]
fn an_action_is_closed_by_its_owner_or_by_a_keeper() {
    let mut store = RoleStore::new();
    let owner = unique(1);
    let keeper = unique(2);
    let stranger = unique(3);
    store.enable_role(RoleKey::ORDER_KEEPER).unwrap();
    store.enable_role(RoleKey::PRICE_KEEPER).unwrap();
    store.grant(&keeper, RoleKey::ORDER_KEEPER).unwrap();
    store.grant(&stranger, RoleKey::PRICE_KEEPER).unwrap();

    assert_eq!(only_role(&store, &keeper, RoleKey::ORDER_KEEPER), Ok(()));
    assert_eq!(only_role(&store, &stranger, RoleKey::ORDER_KEEPER), Err(CoreError::PermissionDenied));
    assert_eq!(only_role(&store, &owner, RoleKey::ORDER_KEEPER), Err(CoreError::PermissionDenied));
    assert_eq!(only_role(&store, &keeper, RoleKey::GT_CONTROLLER), Err(CoreError::NotFound));

    // The owner may close at any time.
    assert_eq!(preprocess_close(&store, &owner, &owner, RoleKey::ORDER_KEEPER, false, false), Ok(true));
    // A keeper may close what is completed or cancelled.
    assert_eq!(preprocess_close(&store, &keeper, &owner, RoleKey::ORDER_KEEPER, false, true), Ok(false));
    assert_eq!(
        preprocess_close(&store, &keeper, &owner, RoleKey::ORDER_KEEPER, false, false),
        Err(CoreError::PermissionDenied)
    );
    assert_eq!(preprocess_close(&store, &keeper, &owner, RoleKey::ORDER_KEEPER, true, false), Ok(false));
    // Nobody else may close.
    assert_eq!(
        preprocess_close(&store, &stranger, &owner, RoleKey::ORDER_KEEPER, true, true),
        Err(CoreError::PermissionDenied)
    );
    assert_eq!(
        preprocess_close(&store, &unique(4), &owner, RoleKey::ORDER_KEEPER, true, true),
        Err(CoreError::PermissionDenied)
    );
    store.disable_role(RoleKey::ORDER_KEEPER).unwrap();
    assert_eq!(
        preprocess_close(&store, &keeper, &owner, RoleKey::ORDER_KEEPER, true, true),
        Err(CoreError::PreconditionsAreNotMet)
    );
}
