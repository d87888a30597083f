use cayopay_server::ledger_stores::{
    ShopMemberStore, ShopOfferingStore, ShopStore, TransactionStore, WalletStore,
};
use cayopay_server::models::{
    ActorId, ShopCreation, ShopId, ShopMemberId, ShopOfferingCreation, ShopOfferingId,
    ShopOfferingUpdate, ShopUpdate, TransactionEntry, TransactionId,
    UserId, WalletCreation, WalletId, WalletUpdate,
};
use cayopay_server::stores::SqlParam;

#[test]
fn system_wallet_creation() {
    let st = WalletStore::create(&WalletCreation {
        owner: None,
        label: Some("fees".to_string()),
        allow_overdraft: true,
    });
    assert!(matches!(st.params[0], SqlParam::NullableUuid(None)));
    assert!(matches!(&st.params[1], SqlParam::NullableText(Some(t)) if t == "fees"));
    assert!(matches!(st.params[2], SqlParam::Bool(true)));
}

#[test]
fn wallet_update_clears_or_keeps_the_label() {
    let clear = WalletStore::update_by_id(&WalletId::from_uuid(1), &WalletUpdate { label: Some(None), allow_overdraft: None });
    assert!(matches!(clear.params[1], SqlParam::Bool(true)));
    assert!(matches!(&clear.params[2], SqlParam::NullableText(None)));
    let keep = WalletStore::update_by_id(&WalletId::from_uuid(1), &WalletUpdate { label: None, allow_overdraft: Some(false) });
    assert!(matches!(keep.params[1], SqlParam::Bool(false)));
    assert!(matches!(keep.params[3], SqlParam::NullableBool(Some(false))));
    let set = WalletStore::update_by_id(&WalletId::from_uuid(1), &WalletUpdate { label: Some(Some("x".to_string())), allow_overdraft: None });
    assert!(matches!(&set.params[2], SqlParam::NullableText(Some(t)) if t == "x"));
    assert!(WalletStore::find_by_label("x").sql.ends_with("WHERE label = $1"));
    assert!(WalletStore::find_by_id(&WalletId::from_uuid(1)).sql.ends_with("WHERE id = $1"));
}

#[test]
fn shop_statements() {
    let st = ShopStore::create(&ShopCreation { owner: Some(UserId::from_uuid(4)), name: "Deli".to_string() });
    assert!(matches!(st.params[0], SqlParam::NullableUuid(Some(4))));
    let st = ShopStore::update_by_id(&ShopId::from_uuid(2), &ShopUpdate { owner: Some(None), name: None });
    assert!(st.sql.contains("CASE WHEN $2::boolean THEN $3 ELSE owner_user_id END"));
    assert!(matches!(st.params[1], SqlParam::Bool(true)));
    assert!(matches!(st.params[2], SqlParam::NullableUuid(None)));
    assert!(ShopStore::list_all().params.is_empty());
    assert!(ShopStore::find_by_id(&ShopId::from_uuid(2)).sql.ends_with("WHERE id = $1"));
}

#[test]
fn shop_member_statements() {
    let st = ShopMemberStore::find_by_shop_and_user_id(&ShopId::from_uuid(1), &UserId::from_uuid(2));
    assert!(matches!(st.params[0], SqlParam::Uuid(1)));
    assert!(matches!(st.params[1], SqlParam::Uuid(2)));
    assert_eq!(
        ShopMemberStore::delete_by_shop_and_user_id(&ShopId::from_uuid(1), &UserId::from_uuid(2)).sql,
        "DELETE FROM shop_members WHERE shop_id = $1 AND user_id = $2"
    );
    assert!(ShopMemberStore::create(&ShopId::from_uuid(1), &UserId::from_uuid(2)).sql.starts_with("INSERT INTO shop_members"));
    assert!(ShopMemberStore::find_by_id(&ShopMemberId::from_uuid(3)).sql.ends_with("WHERE id = $1"));
    assert!(ShopMemberStore::list_by_shop_id(&ShopId::from_uuid(1)).sql.ends_with("WHERE shop_id = $1"));
    assert!(ShopMemberStore::list_by_user_id(&UserId::from_uuid(2)).sql.ends_with("WHERE user_id = $1"));
}

#[test]
fn transaction_statements() {
    let st = TransactionStore::save(&TransactionEntry {
        id: TransactionId::from_uuid(10),
        sender_wallet_id: WalletId::from_uuid(1),
        receiver_wallet_id: WalletId::from_uuid(2),
        executor_actor_id: ActorId::from_uuid(3),
        amount: 100,
        description: Some("Payment 1".to_string()),
        created_at: 5,
        updated_at: 6,
    });
    assert_eq!(st.params.len(), 8);
    assert!(matches!(st.params[1], SqlParam::Uuid(1)));
    assert!(matches!(st.params[2], SqlParam::Uuid(2)));
    assert!(matches!(st.params[4], SqlParam::BigInt(100)));
    assert!(matches!(st.params[7], SqlParam::Timestamp(6)));
    let st = TransactionStore::balance_by_wallet_id(&WalletId::from_uuid(1));
    assert!(st.sql.contains("WHEN sender_wallet_id = $1 THEN -amount"));
    assert!(matches!(TransactionStore::find_by_id(&TransactionId::from_uuid(10)).params[0], SqlParam::Uuid(10)));
}

#[test]
fn balance_without_a_row_is_zero() {
    assert_eq!(TransactionStore::balance(None), 0);
    assert_eq!(TransactionStore::balance(Some(-80)), -80);
}

#[test]
fn offering_prices_are_stored_as_32_bit_cents() {
    let st = ShopOfferingStore::create(
        &ShopId::from_uuid(1),
        &ShopOfferingCreation { name: "Tea".to_string(), description: None, price_minor: 250 },
    );
    assert!(matches!(st.params[3], SqlParam::Int(250)));
    let st = ShopOfferingStore::create(
        &ShopId::from_uuid(1),
        &ShopOfferingCreation { name: "Car".to_string(), description: None, price_minor: 5_000_000_000 },
    );
    assert!(matches!(st.params[3], SqlParam::Int(705_032_704)));
    let st = ShopOfferingStore::update_by_id(
        &ShopOfferingId::from_uuid(2),
        &ShopOfferingUpdate { name: None, description: Some(None), price_minor: Some(99) },
    );
    assert!(matches!(st.params[2], SqlParam::Bool(true)));
    assert!(matches!(&st.params[3], SqlParam::NullableText(None)));
    assert!(matches!(st.params[4], SqlParam::NullableInt(Some(99))));
    assert_eq!(ShopOfferingStore::delete_by_id(&ShopOfferingId::from_uuid(2)).sql, "DELETE FROM shop_offerings WHERE id = $1");
    assert!(ShopOfferingStore::find_by_id(&ShopOfferingId::from_uuid(2)).sql.ends_with("WHERE id = $1"));
    assert!(ShopOfferingStore::list_by_shop_id(&ShopId::from_uuid(1)).sql.ends_with("WHERE shop_id = $1"));
}
