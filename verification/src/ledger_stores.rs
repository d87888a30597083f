//! The statements of the stores of wallets, shops, shop members and transactions. Each
//! method states the SQL it runs and the values it binds; the caller runs the statement
//! and reads the rows. Instants are microseconds since the Unix epoch (UTC).
use crate::id::Id;
use crate::models::{
    ShopCreation, ShopId, ShopMemberId, ShopOfferingCreation, ShopOfferingId, ShopOfferingUpdate,
    ShopUpdate, TransactionEntry, TransactionId, UserId,
    WalletCreation, WalletId, WalletUpdate,
};
use crate::stores::{
    bound, five, four, nullable_text_param, one, opt_text, text_param, three, two, SqlParam,
    SqlParamView, Statement,
};
use crate::sql::{
    bound_value, cond_text, delete_text, deletes, holds, insert_text, inserted_row, inserts,
    item_text, key_conds, lemma_columns_read_back, lemma_key_conds, lemma_ordered_insert,
    lemma_small_placeholders, list_text, lists, looks_up, ordinals, placeholder, row_of,
    select_text, set_text, update_text, updates, with_values, Cond, DbValue, Item, SetItem,
};
use crate::text::joined;
use vstd::prelude::*;

verus! {

/// The text of the statement of `WalletStore::create`.
pub open spec fn wallet_insert_sql() -> Seq<char> {
    "INSERT INTO wallets (owner_actor_id, label, allow_overdraft) VALUES ($1, $2, $3) RETURNING id, owner_actor_id, label, allow_overdraft, created_at, updated_at"@
}

/// The bits of an optional id.
pub open spec fn opt_id<T>(o: Option<Id<T>>) -> Option<u128> {
    match o {
        Some(i) => Some(i@),
        None => None,
    }
}

/// What is left of a doubly optional value once the outer level is dropped.
pub open spec fn flat<A>(o: Option<Option<A>>) -> Option<A> {
    match o {
        Some(inner) => inner,
        None => None,
    }
}

fn nullable_id_param<T>(o: &Option<Id<T>>) -> (p: SqlParam)
    ensures
        p@ == SqlParamView::NullableUuid(opt_id(*o)),
{
    match o {
        Some(i) => SqlParam::NullableUuid(Some(i.into_inner())),
        None => SqlParam::NullableUuid(None),
    }
}

/// The values that the wallet insert binds for `c`, in order.
pub open spec fn wallet_insert_binds(c: WalletCreation) -> Seq<SqlParamView> {
    seq![
        SqlParamView::NullableUuid(opt_id(c.owner)),
        SqlParamView::NullableText(opt_text(c.label)),
        SqlParamView::Bool(c.allow_overdraft),
    ]
}

/// The row that creating the wallet `c` stores in `wallets`: its owner (or none), its
/// label (or none) and whether it may overdraw.
pub open spec fn wallet_row(c: WalletCreation) -> Map<Seq<char>, DbValue> {
    Map::<Seq<char>, DbValue>::empty().insert(
        "owner_actor_id"@,
        bound_value(SqlParamView::NullableUuid(opt_id(c.owner))),
    ).insert("label"@, bound_value(SqlParamView::NullableText(opt_text(c.label)))).insert(
        "allow_overdraft"@,
        DbValue::Bool(c.allow_overdraft),
    )
}

/// The wallet insert stores the owner under `owner_actor_id`, the label under `label` and
/// the overdraft setting under `allow_overdraft`.
pub proof fn lemma_wallet_insert_stores_each_field(c: WalletCreation)
    ensures
        inserts(wallet_insert_sql(), "wallets"@, wallet_insert_binds(c), wallet_row(c)),
{
    let columns = seq!["owner_actor_id"@, "label"@, "allow_overdraft"@];
    let values = seq![1nat, 2nat, 3nat];
    let rest = " RETURNING id, owner_actor_id, label, allow_overdraft, created_at, updated_at"@;
    reveal_strlit("INSERT INTO wallets (owner_actor_id, label, allow_overdraft) VALUES ($1, $2, $3) RETURNING id, owner_actor_id, label, allow_overdraft, created_at, updated_at");
    reveal_strlit(" RETURNING id, owner_actor_id, label, allow_overdraft, created_at, updated_at");
    reveal_strlit("INSERT INTO ");
    reveal_strlit(" (");
    reveal_strlit(", ");
    reveal_strlit(") VALUES (");
    reveal_strlit(")");
    reveal_strlit("wallets");
    reveal_strlit("owner_actor_id");
    reveal_strlit("label");
    reveal_strlit("allow_overdraft");
    reveal_with_fuel(joined, 4);
    lemma_small_placeholders();
    assert(values.map_values(|k: nat| placeholder(k)) =~= seq![
        seq!['$', '1'],
        seq!['$', '2'],
        seq!['$', '3'],
    ]);
    assert(wallet_insert_sql() =~= insert_text("wallets"@, columns, values, rest));
    assert(columns.no_duplicates()) by {
        assert forall|i: int, j: int| 0 <= i < columns.len() && 0 <= j < columns.len() && i != j
            implies columns[i] != columns[j] by {
            assert(columns[i][0] != columns[j][0]);
        }
    }
    reveal_with_fuel(inserted_row, 4);
    assert(inserted_row(columns, values, wallet_insert_binds(c)) =~= wallet_row(c));
}

/// The text of the statement of `WalletStore::find_by_id`.
pub open spec fn wallet_store_find_by_id_sql() -> Seq<char> {
    "SELECT id, owner_actor_id, label, allow_overdraft, created_at, updated_at FROM wallets WHERE id = $1"@
}

/// The statement of `WalletStore::find_by_id` selects from `wallets` exactly the rows whose
/// `id` hold the bound values, and returns each of their columns as stored.
pub proof fn lemma_wallet_store_find_by_id(binds: Seq<SqlParamView>)
    requires
        binds.len() == 1,
    ensures
        looks_up(wallet_store_find_by_id_sql(), "wallets"@, binds, with_values(seq!["id"@], binds), seq!["id"@, "owner_actor_id"@, "label"@, "allow_overdraft"@, "created_at"@, "updated_at"@]),
{
    let names = seq!["id"@, "owner_actor_id"@, "label"@, "allow_overdraft"@, "created_at"@, "updated_at"@];
    let keys = seq!["id"@];
    reveal_strlit("SELECT id, owner_actor_id, label, allow_overdraft, created_at, updated_at FROM wallets WHERE id = $1");
    reveal_strlit("SELECT ");
    reveal_strlit(" FROM ");
    reveal_strlit(" WHERE ");
    reveal_strlit(" AND ");
    reveal_strlit(" = ");
    reveal_strlit(", ");
    reveal_strlit("wallets");
    reveal_strlit("id");
    reveal_strlit("owner_actor_id");
    reveal_strlit("label");
    reveal_strlit("allow_overdraft");
    reveal_strlit("created_at");
    reveal_strlit("updated_at");
    lemma_small_placeholders();
    let items = names.map_values(|n: Seq<char>| Item::Column(n));
    let conds = key_conds(keys);
    assert(names.no_duplicates()) by {
        assert forall|i: int, j: int| 0 <= i < names.len() && 0 <= j < names.len() && i != j
            implies names[i] != names[j] by {
            assert(names[i].len() != names[j].len() || names[i][0] != names[j][0]);
        }
    }
    lemma_columns_read_back(items, names);
    reveal_with_fuel(joined, 7);
    assert(items.map_values(|i: Item| item_text(i)) =~= names);
    assert(conds =~= seq![Cond::Eq("id"@, 1)]);
    assert(conds.map_values(|c: Cond| cond_text(c)) =~= seq![cond_text(conds[0])]);
    assert(wallet_store_find_by_id_sql() =~= select_text(items, "wallets"@, conds));
    lemma_key_conds(keys, binds);
}

/// The text of the statement of `WalletStore::find_by_label`.
pub open spec fn wallet_store_find_by_label_sql() -> Seq<char> {
    "SELECT id, owner_actor_id, label, allow_overdraft, created_at, updated_at FROM wallets WHERE label = $1"@
}

/// The statement of `WalletStore::find_by_label` selects from `wallets` exactly the rows whose
/// `label` hold the bound values, and returns each of their columns as stored.
pub proof fn lemma_wallet_store_find_by_label(binds: Seq<SqlParamView>)
    requires
        binds.len() == 1,
    ensures
        looks_up(wallet_store_find_by_label_sql(), "wallets"@, binds, with_values(seq!["label"@], binds), seq!["id"@, "owner_actor_id"@, "label"@, "allow_overdraft"@, "created_at"@, "updated_at"@]),
{
    let names = seq!["id"@, "owner_actor_id"@, "label"@, "allow_overdraft"@, "created_at"@, "updated_at"@];
    let keys = seq!["label"@];
    reveal_strlit("SELECT id, owner_actor_id, label, allow_overdraft, created_at, updated_at FROM wallets WHERE label = $1");
    reveal_strlit("SELECT ");
    reveal_strlit(" FROM ");
    reveal_strlit(" WHERE ");
    reveal_strlit(" AND ");
    reveal_strlit(" = ");
    reveal_strlit(", ");
    reveal_strlit("wallets");
    reveal_strlit("id");
    reveal_strlit("owner_actor_id");
    reveal_strlit("label");
    reveal_strlit("allow_overdraft");
    reveal_strlit("created_at");
    reveal_strlit("updated_at");
    lemma_small_placeholders();
    let items = names.map_values(|n: Seq<char>| Item::Column(n));
    let conds = key_conds(keys);
    assert(names.no_duplicates()) by {
        assert forall|i: int, j: int| 0 <= i < names.len() && 0 <= j < names.len() && i != j
            implies names[i] != names[j] by {
            assert(names[i].len() != names[j].len() || names[i][0] != names[j][0]);
        }
    }
    lemma_columns_read_back(items, names);
    reveal_with_fuel(joined, 7);
    assert(items.map_values(|i: Item| item_text(i)) =~= names);
    assert(conds =~= seq![Cond::Eq("label"@, 1)]);
    assert(conds.map_values(|c: Cond| cond_text(c)) =~= seq![cond_text(conds[0])]);
    assert(wallet_store_find_by_label_sql() =~= select_text(items, "wallets"@, conds));
    lemma_key_conds(keys, binds);
}

/// The text of the statement of `ShopStore::create`.
pub open spec fn shop_store_create_sql() -> Seq<char> {
    "INSERT INTO shops (owner_user_id, name) VALUES ($1, $2) RETURNING id, owner_user_id, name, created_at, updated_at"@
}

/// The statement of `ShopStore::create` inserts into `shops` one row in which each of its
/// columns holds its own bound value, in the order `owner_user_id, name`.
pub proof fn lemma_shop_store_create(binds: Seq<SqlParamView>)
    requires
        binds.len() == 2,
    ensures
        inserts(shop_store_create_sql(), "shops"@, binds, row_of(seq!["owner_user_id"@, "name"@], binds)),
{
    let columns = seq!["owner_user_id"@, "name"@];
    reveal_strlit("INSERT INTO shops (owner_user_id, name) VALUES ($1, $2) RETURNING id, owner_user_id, name, created_at, updated_at");
    reveal_strlit("INSERT INTO ");
    reveal_strlit(" (");
    reveal_strlit(", ");
    reveal_strlit(") VALUES (");
    reveal_strlit(")");
    reveal_strlit("shops");
    reveal_strlit("owner_user_id");
    reveal_strlit("name");
    reveal_strlit(" RETURNING id, owner_user_id, name, created_at, updated_at");
    reveal_with_fuel(joined, 3);
    lemma_small_placeholders();
    assert(ordinals(2) =~= seq![1nat, 2nat]);
    assert(ordinals(2).map_values(|k: nat| placeholder(k)) =~= seq![seq!['$', '1'], seq!['$', '2']]);
    assert(shop_store_create_sql() =~= insert_text("shops"@, columns, ordinals(2), " RETURNING id, owner_user_id, name, created_at, updated_at"@));
    assert(columns.no_duplicates()) by {
        assert forall|i: int, j: int| 0 <= i < columns.len() && 0 <= j < columns.len() && i != j
            implies columns[i] != columns[j] by {
            assert(columns[i].len() != columns[j].len());
        }
    }
    lemma_ordered_insert(columns, binds);
}

/// The text of the statement of `ShopStore::find_by_id`.
pub open spec fn shop_store_find_by_id_sql() -> Seq<char> {
    "SELECT id, owner_user_id, name, created_at, updated_at FROM shops WHERE id = $1"@
}

/// The statement of `ShopStore::find_by_id` selects from `shops` exactly the rows whose
/// `id` hold the bound values, and returns each of their columns as stored.
pub proof fn lemma_shop_store_find_by_id(binds: Seq<SqlParamView>)
    requires
        binds.len() == 1,
    ensures
        looks_up(shop_store_find_by_id_sql(), "shops"@, binds, with_values(seq!["id"@], binds), seq!["id"@, "owner_user_id"@, "name"@, "created_at"@, "updated_at"@]),
{
    let names = seq!["id"@, "owner_user_id"@, "name"@, "created_at"@, "updated_at"@];
    let keys = seq!["id"@];
    reveal_strlit("SELECT id, owner_user_id, name, created_at, updated_at FROM shops WHERE id = $1");
    reveal_strlit("SELECT ");
    reveal_strlit(" FROM ");
    reveal_strlit(" WHERE ");
    reveal_strlit(" AND ");
    reveal_strlit(" = ");
    reveal_strlit(", ");
    reveal_strlit("shops");
    reveal_strlit("id");
    reveal_strlit("owner_user_id");
    reveal_strlit("name");
    reveal_strlit("created_at");
    reveal_strlit("updated_at");
    lemma_small_placeholders();
    let items = names.map_values(|n: Seq<char>| Item::Column(n));
    let conds = key_conds(keys);
    assert(names.no_duplicates()) by {
        assert forall|i: int, j: int| 0 <= i < names.len() && 0 <= j < names.len() && i != j
            implies names[i] != names[j] by {
            assert(names[i].len() != names[j].len() || names[i][0] != names[j][0]);
        }
    }
    lemma_columns_read_back(items, names);
    reveal_with_fuel(joined, 6);
    assert(items.map_values(|i: Item| item_text(i)) =~= names);
    assert(conds =~= seq![Cond::Eq("id"@, 1)]);
    assert(conds.map_values(|c: Cond| cond_text(c)) =~= seq![cond_text(conds[0])]);
    assert(shop_store_find_by_id_sql() =~= select_text(items, "shops"@, conds));
    lemma_key_conds(keys, binds);
}

/// The text of the statement of `ShopOfferingStore::create`.
pub open spec fn shop_offering_store_create_sql() -> Seq<char> {
    "INSERT INTO shop_offerings (shop_id, name, description, price_cents) VALUES ($1, $2, $3, $4) RETURNING id, shop_id, name, description, price_cents, created_at, updated_at"@
}

/// The statement of `ShopOfferingStore::create` inserts into `shop_offerings` one row in which each of its
/// columns holds its own bound value, in the order `shop_id, name, description, price_cents`.
pub proof fn lemma_shop_offering_store_create(binds: Seq<SqlParamView>)
    requires
        binds.len() == 4,
    ensures
        inserts(shop_offering_store_create_sql(), "shop_offerings"@, binds, row_of(seq!["shop_id"@, "name"@, "description"@, "price_cents"@], binds)),
{
    let columns = seq!["shop_id"@, "name"@, "description"@, "price_cents"@];
    reveal_strlit("INSERT INTO shop_offerings (shop_id, name, description, price_cents) VALUES ($1, $2, $3, $4) RETURNING id, shop_id, name, description, price_cents, created_at, updated_at");
    reveal_strlit("INSERT INTO ");
    reveal_strlit(" (");
    reveal_strlit(", ");
    reveal_strlit(") VALUES (");
    reveal_strlit(")");
    reveal_strlit("shop_offerings");
    reveal_strlit("shop_id");
    reveal_strlit("name");
    reveal_strlit("description");
    reveal_strlit("price_cents");
    reveal_strlit(" RETURNING id, shop_id, name, description, price_cents, created_at, updated_at");
    reveal_with_fuel(joined, 5);
    lemma_small_placeholders();
    assert(ordinals(4) =~= seq![1nat, 2nat, 3nat, 4nat]);
    assert(ordinals(4).map_values(|k: nat| placeholder(k)) =~= seq![seq!['$', '1'], seq!['$', '2'], seq!['$', '3'], seq!['$', '4']]);
    assert(shop_offering_store_create_sql() =~= insert_text("shop_offerings"@, columns, ordinals(4), " RETURNING id, shop_id, name, description, price_cents, created_at, updated_at"@));
    assert(columns.no_duplicates()) by {
        assert forall|i: int, j: int| 0 <= i < columns.len() && 0 <= j < columns.len() && i != j
            implies columns[i] != columns[j] by {
            assert(columns[i].len() != columns[j].len() || columns[i][0] != columns[j][0]);
        }
    }
    lemma_ordered_insert(columns, binds);
}

/// The text of the statement of `ShopOfferingStore::delete_by_id`.
pub open spec fn shop_offering_store_delete_by_id_sql() -> Seq<char> {
    "DELETE FROM shop_offerings WHERE id = $1"@
}

/// The statement of `ShopOfferingStore::delete_by_id` deletes from `shop_offerings` exactly the rows whose
/// `id` hold the bound values.
pub proof fn lemma_shop_offering_store_delete_by_id(binds: Seq<SqlParamView>)
    requires
        binds.len() == 1,
    ensures
        deletes(shop_offering_store_delete_by_id_sql(), "shop_offerings"@, binds, with_values(seq!["id"@], binds)),
{
    let keys = seq!["id"@];
    reveal_strlit("DELETE FROM shop_offerings WHERE id = $1");
    reveal_strlit("DELETE FROM ");
    reveal_strlit(" WHERE ");
    reveal_strlit(" AND ");
    reveal_strlit(" = ");
    reveal_strlit("shop_offerings");
    reveal_strlit("id");
    lemma_small_placeholders();
    let conds = key_conds(keys);
    reveal_with_fuel(joined, 2);
    assert(conds =~= seq![Cond::Eq("id"@, 1)]);
    assert(conds.map_values(|c: Cond| cond_text(c)) =~= seq![cond_text(conds[0])]);
    assert(shop_offering_store_delete_by_id_sql() =~= delete_text("shop_offerings"@, conds));
    lemma_key_conds(keys, binds);
}

/// The text of the statement of `ShopOfferingStore::find_by_id`.
pub open spec fn shop_offering_store_find_by_id_sql() -> Seq<char> {
    "SELECT id, shop_id, name, description, price_cents, created_at, updated_at FROM shop_offerings WHERE id = $1"@
}

/// The statement of `ShopOfferingStore::find_by_id` selects from `shop_offerings` exactly the rows whose
/// `id` hold the bound values, and returns each of their columns as stored.
pub proof fn lemma_shop_offering_store_find_by_id(binds: Seq<SqlParamView>)
    requires
        binds.len() == 1,
    ensures
        looks_up(shop_offering_store_find_by_id_sql(), "shop_offerings"@, binds, with_values(seq!["id"@], binds), seq!["id"@, "shop_id"@, "name"@, "description"@, "price_cents"@, "created_at"@, "updated_at"@]),
{
    let names = seq!["id"@, "shop_id"@, "name"@, "description"@, "price_cents"@, "created_at"@, "updated_at"@];
    let keys = seq!["id"@];
    reveal_strlit("SELECT id, shop_id, name, description, price_cents, created_at, updated_at FROM shop_offerings WHERE id = $1");
    reveal_strlit("SELECT ");
    reveal_strlit(" FROM ");
    reveal_strlit(" WHERE ");
    reveal_strlit(" AND ");
    reveal_strlit(" = ");
    reveal_strlit(", ");
    reveal_strlit("shop_offerings");
    reveal_strlit("id");
    reveal_strlit("shop_id");
    reveal_strlit("name");
    reveal_strlit("description");
    reveal_strlit("price_cents");
    reveal_strlit("created_at");
    reveal_strlit("updated_at");
    lemma_small_placeholders();
    let items = names.map_values(|n: Seq<char>| Item::Column(n));
    let conds = key_conds(keys);
    assert(names.no_duplicates()) by {
        assert forall|i: int, j: int| 0 <= i < names.len() && 0 <= j < names.len() && i != j
            implies names[i] != names[j] by {
            assert(names[i].len() != names[j].len() || names[i][0] != names[j][0]);
        }
    }
    lemma_columns_read_back(items, names);
    reveal_with_fuel(joined, 8);
    assert(items.map_values(|i: Item| item_text(i)) =~= names);
    assert(conds =~= seq![Cond::Eq("id"@, 1)]);
    assert(conds.map_values(|c: Cond| cond_text(c)) =~= seq![cond_text(conds[0])]);
    assert(shop_offering_store_find_by_id_sql() =~= select_text(items, "shop_offerings"@, conds));
    lemma_key_conds(keys, binds);
}

/// The text of the statement of `ShopOfferingStore::list_by_shop_id`.
pub open spec fn shop_offering_store_list_by_shop_id_sql() -> Seq<char> {
    "SELECT id, shop_id, name, description, price_cents, created_at, updated_at FROM shop_offerings WHERE shop_id = $1"@
}

/// The statement of `ShopOfferingStore::list_by_shop_id` selects from `shop_offerings` exactly the rows whose
/// `shop_id` hold the bound values, and returns each of their columns as stored.
pub proof fn lemma_shop_offering_store_list_by_shop_id(binds: Seq<SqlParamView>)
    requires
        binds.len() == 1,
    ensures
        looks_up(shop_offering_store_list_by_shop_id_sql(), "shop_offerings"@, binds, with_values(seq!["shop_id"@], binds), seq!["id"@, "shop_id"@, "name"@, "description"@, "price_cents"@, "created_at"@, "updated_at"@]),
{
    let names = seq!["id"@, "shop_id"@, "name"@, "description"@, "price_cents"@, "created_at"@, "updated_at"@];
    let keys = seq!["shop_id"@];
    reveal_strlit("SELECT id, shop_id, name, description, price_cents, created_at, updated_at FROM shop_offerings WHERE shop_id = $1");
    reveal_strlit("SELECT ");
    reveal_strlit(" FROM ");
    reveal_strlit(" WHERE ");
    reveal_strlit(" AND ");
    reveal_strlit(" = ");
    reveal_strlit(", ");
    reveal_strlit("shop_offerings");
    reveal_strlit("id");
    reveal_strlit("shop_id");
    reveal_strlit("name");
    reveal_strlit("description");
    reveal_strlit("price_cents");
    reveal_strlit("created_at");
    reveal_strlit("updated_at");
    lemma_small_placeholders();
    let items = names.map_values(|n: Seq<char>| Item::Column(n));
    let conds = key_conds(keys);
    assert(names.no_duplicates()) by {
        assert forall|i: int, j: int| 0 <= i < names.len() && 0 <= j < names.len() && i != j
            implies names[i] != names[j] by {
            assert(names[i].len() != names[j].len() || names[i][0] != names[j][0]);
        }
    }
    lemma_columns_read_back(items, names);
    reveal_with_fuel(joined, 8);
    assert(items.map_values(|i: Item| item_text(i)) =~= names);
    assert(conds =~= seq![Cond::Eq("shop_id"@, 1)]);
    assert(conds.map_values(|c: Cond| cond_text(c)) =~= seq![cond_text(conds[0])]);
    assert(shop_offering_store_list_by_shop_id_sql() =~= select_text(items, "shop_offerings"@, conds));
    lemma_key_conds(keys, binds);
}

/// The text of the statement of `ShopMemberStore::create`.
pub open spec fn shop_member_store_create_sql() -> Seq<char> {
    "INSERT INTO shop_members (shop_id, user_id) VALUES ($1, $2) RETURNING id, shop_id, user_id, created_at, updated_at"@
}

/// The statement of `ShopMemberStore::create` inserts into `shop_members` one row in which each of its
/// columns holds its own bound value, in the order `shop_id, user_id`.
pub proof fn lemma_shop_member_store_create(binds: Seq<SqlParamView>)
    requires
        binds.len() == 2,
    ensures
        inserts(shop_member_store_create_sql(), "shop_members"@, binds, row_of(seq!["shop_id"@, "user_id"@], binds)),
{
    let columns = seq!["shop_id"@, "user_id"@];
    reveal_strlit("INSERT INTO shop_members (shop_id, user_id) VALUES ($1, $2) RETURNING id, shop_id, user_id, created_at, updated_at");
    reveal_strlit("INSERT INTO ");
    reveal_strlit(" (");
    reveal_strlit(", ");
    reveal_strlit(") VALUES (");
    reveal_strlit(")");
    reveal_strlit("shop_members");
    reveal_strlit("shop_id");
    reveal_strlit("user_id");
    reveal_strlit(" RETURNING id, shop_id, user_id, created_at, updated_at");
    reveal_with_fuel(joined, 3);
    lemma_small_placeholders();
    assert(ordinals(2) =~= seq![1nat, 2nat]);
    assert(ordinals(2).map_values(|k: nat| placeholder(k)) =~= seq![seq!['$', '1'], seq!['$', '2']]);
    assert(shop_member_store_create_sql() =~= insert_text("shop_members"@, columns, ordinals(2), " RETURNING id, shop_id, user_id, created_at, updated_at"@));
    assert(columns.no_duplicates()) by {
        assert forall|i: int, j: int| 0 <= i < columns.len() && 0 <= j < columns.len() && i != j
            implies columns[i] != columns[j] by {
            assert(columns[i].len() != columns[j].len() || columns[i][0] != columns[j][0]);
        }
    }
    lemma_ordered_insert(columns, binds);
}

/// The text of the statement of `ShopMemberStore::delete_by_shop_and_user_id`.
pub open spec fn shop_member_store_delete_by_shop_and_user_id_sql() -> Seq<char> {
    "DELETE FROM shop_members WHERE shop_id = $1 AND user_id = $2"@
}

/// The statement of `ShopMemberStore::delete_by_shop_and_user_id` deletes from `shop_members` exactly the rows whose
/// `shop_id`, `user_id` hold the bound values.
pub proof fn lemma_shop_member_store_delete_by_shop_and_user_id(binds: Seq<SqlParamView>)
    requires
        binds.len() == 2,
    ensures
        deletes(shop_member_store_delete_by_shop_and_user_id_sql(), "shop_members"@, binds, with_values(seq!["shop_id"@, "user_id"@], binds)),
{
    let keys = seq!["shop_id"@, "user_id"@];
    reveal_strlit("DELETE FROM shop_members WHERE shop_id = $1 AND user_id = $2");
    reveal_strlit("DELETE FROM ");
    reveal_strlit(" WHERE ");
    reveal_strlit(" AND ");
    reveal_strlit(" = ");
    reveal_strlit("shop_members");
    reveal_strlit("shop_id");
    reveal_strlit("user_id");
    lemma_small_placeholders();
    let conds = key_conds(keys);
    reveal_with_fuel(joined, 3);
    assert(conds =~= seq![Cond::Eq("shop_id"@, 1), Cond::Eq("user_id"@, 2)]);
    assert(conds.map_values(|c: Cond| cond_text(c)) =~= seq![cond_text(conds[0]), cond_text(conds[1])]);
    assert(shop_member_store_delete_by_shop_and_user_id_sql() =~= delete_text("shop_members"@, conds));
    lemma_key_conds(keys, binds);
}

/// The text of the statement of `ShopMemberStore::find_by_id`.
pub open spec fn shop_member_store_find_by_id_sql() -> Seq<char> {
    "SELECT id, shop_id, user_id, created_at, updated_at FROM shop_members WHERE id = $1"@
}

/// The statement of `ShopMemberStore::find_by_id` selects from `shop_members` exactly the rows whose
/// `id` hold the bound values, and returns each of their columns as stored.
pub proof fn lemma_shop_member_store_find_by_id(binds: Seq<SqlParamView>)
    requires
        binds.len() == 1,
    ensures
        looks_up(shop_member_store_find_by_id_sql(), "shop_members"@, binds, with_values(seq!["id"@], binds), seq!["id"@, "shop_id"@, "user_id"@, "created_at"@, "updated_at"@]),
{
    let names = seq!["id"@, "shop_id"@, "user_id"@, "created_at"@, "updated_at"@];
    let keys = seq!["id"@];
    reveal_strlit("SELECT id, shop_id, user_id, created_at, updated_at FROM shop_members WHERE id = $1");
    reveal_strlit("SELECT ");
    reveal_strlit(" FROM ");
    reveal_strlit(" WHERE ");
    reveal_strlit(" AND ");
    reveal_strlit(" = ");
    reveal_strlit(", ");
    reveal_strlit("shop_members");
    reveal_strlit("id");
    reveal_strlit("shop_id");
    reveal_strlit("user_id");
    reveal_strlit("created_at");
    reveal_strlit("updated_at");
    lemma_small_placeholders();
    let items = names.map_values(|n: Seq<char>| Item::Column(n));
    let conds = key_conds(keys);
    assert(names.no_duplicates()) by {
        assert forall|i: int, j: int| 0 <= i < names.len() && 0 <= j < names.len() && i != j
            implies names[i] != names[j] by {
            assert(names[i].len() != names[j].len() || names[i][0] != names[j][0]);
        }
    }
    lemma_columns_read_back(items, names);
    reveal_with_fuel(joined, 6);
    assert(items.map_values(|i: Item| item_text(i)) =~= names);
    assert(conds =~= seq![Cond::Eq("id"@, 1)]);
    assert(conds.map_values(|c: Cond| cond_text(c)) =~= seq![cond_text(conds[0])]);
    assert(shop_member_store_find_by_id_sql() =~= select_text(items, "shop_members"@, conds));
    lemma_key_conds(keys, binds);
}

/// The text of the statement of `ShopMemberStore::find_by_shop_and_user_id`.
pub open spec fn shop_member_store_find_by_shop_and_user_id_sql() -> Seq<char> {
    "SELECT id, shop_id, user_id, created_at, updated_at FROM shop_members WHERE shop_id = $1 AND user_id = $2"@
}

/// The statement of `ShopMemberStore::find_by_shop_and_user_id` selects from `shop_members` exactly the rows whose
/// `shop_id`, `user_id` hold the bound values, and returns each of their columns as stored.
pub proof fn lemma_shop_member_store_find_by_shop_and_user_id(binds: Seq<SqlParamView>)
    requires
        binds.len() == 2,
    ensures
        looks_up(shop_member_store_find_by_shop_and_user_id_sql(), "shop_members"@, binds, with_values(seq!["shop_id"@, "user_id"@], binds), seq!["id"@, "shop_id"@, "user_id"@, "created_at"@, "updated_at"@]),
{
    let names = seq!["id"@, "shop_id"@, "user_id"@, "created_at"@, "updated_at"@];
    let keys = seq!["shop_id"@, "user_id"@];
    reveal_strlit("SELECT id, shop_id, user_id, created_at, updated_at FROM shop_members WHERE shop_id = $1 AND user_id = $2");
    reveal_strlit("SELECT ");
    reveal_strlit(" FROM ");
    reveal_strlit(" WHERE ");
    reveal_strlit(" AND ");
    reveal_strlit(" = ");
    reveal_strlit(", ");
    reveal_strlit("shop_members");
    reveal_strlit("id");
    reveal_strlit("shop_id");
    reveal_strlit("user_id");
    reveal_strlit("created_at");
    reveal_strlit("updated_at");
    lemma_small_placeholders();
    let items = names.map_values(|n: Seq<char>| Item::Column(n));
    let conds = key_conds(keys);
    assert(names.no_duplicates()) by {
        assert forall|i: int, j: int| 0 <= i < names.len() && 0 <= j < names.len() && i != j
            implies names[i] != names[j] by {
            assert(names[i].len() != names[j].len() || names[i][0] != names[j][0]);
        }
    }
    lemma_columns_read_back(items, names);
    reveal_with_fuel(joined, 6);
    assert(items.map_values(|i: Item| item_text(i)) =~= names);
    assert(conds =~= seq![Cond::Eq("shop_id"@, 1), Cond::Eq("user_id"@, 2)]);
    assert(conds.map_values(|c: Cond| cond_text(c)) =~= seq![cond_text(conds[0]), cond_text(conds[1])]);
    assert(shop_member_store_find_by_shop_and_user_id_sql() =~= select_text(items, "shop_members"@, conds));
    lemma_key_conds(keys, binds);
}

/// The text of the statement of `ShopMemberStore::list_by_shop_id`.
pub open spec fn shop_member_store_list_by_shop_id_sql() -> Seq<char> {
    "SELECT id, shop_id, user_id, created_at, updated_at FROM shop_members WHERE shop_id = $1"@
}

/// The statement of `ShopMemberStore::list_by_shop_id` selects from `shop_members` exactly the rows whose
/// `shop_id` hold the bound values, and returns each of their columns as stored.
pub proof fn lemma_shop_member_store_list_by_shop_id(binds: Seq<SqlParamView>)
    requires
        binds.len() == 1,
    ensures
        looks_up(shop_member_store_list_by_shop_id_sql(), "shop_members"@, binds, with_values(seq!["shop_id"@], binds), seq!["id"@, "shop_id"@, "user_id"@, "created_at"@, "updated_at"@]),
{
    let names = seq!["id"@, "shop_id"@, "user_id"@, "created_at"@, "updated_at"@];
    let keys = seq!["shop_id"@];
    reveal_strlit("SELECT id, shop_id, user_id, created_at, updated_at FROM shop_members WHERE shop_id = $1");
    reveal_strlit("SELECT ");
    reveal_strlit(" FROM ");
    reveal_strlit(" WHERE ");
    reveal_strlit(" AND ");
    reveal_strlit(" = ");
    reveal_strlit(", ");
    reveal_strlit("shop_members");
    reveal_strlit("id");
    reveal_strlit("shop_id");
    reveal_strlit("user_id");
    reveal_strlit("created_at");
    reveal_strlit("updated_at");
    lemma_small_placeholders();
    let items = names.map_values(|n: Seq<char>| Item::Column(n));
    let conds = key_conds(keys);
    assert(names.no_duplicates()) by {
        assert forall|i: int, j: int| 0 <= i < names.len() && 0 <= j < names.len() && i != j
            implies names[i] != names[j] by {
            assert(names[i].len() != names[j].len() || names[i][0] != names[j][0]);
        }
    }
    lemma_columns_read_back(items, names);
    reveal_with_fuel(joined, 6);
    assert(items.map_values(|i: Item| item_text(i)) =~= names);
    assert(conds =~= seq![Cond::Eq("shop_id"@, 1)]);
    assert(conds.map_values(|c: Cond| cond_text(c)) =~= seq![cond_text(conds[0])]);
    assert(shop_member_store_list_by_shop_id_sql() =~= select_text(items, "shop_members"@, conds));
    lemma_key_conds(keys, binds);
}

/// The text of the statement of `ShopMemberStore::list_by_user_id`.
pub open spec fn shop_member_store_list_by_user_id_sql() -> Seq<char> {
    "SELECT id, shop_id, user_id, created_at, updated_at FROM shop_members WHERE user_id = $1"@
}

/// The statement of `ShopMemberStore::list_by_user_id` selects from `shop_members` exactly the rows whose
/// `user_id` hold the bound values, and returns each of their columns as stored.
pub proof fn lemma_shop_member_store_list_by_user_id(binds: Seq<SqlParamView>)
    requires
        binds.len() == 1,
    ensures
        looks_up(shop_member_store_list_by_user_id_sql(), "shop_members"@, binds, with_values(seq!["user_id"@], binds), seq!["id"@, "shop_id"@, "user_id"@, "created_at"@, "updated_at"@]),
{
    let names = seq!["id"@, "shop_id"@, "user_id"@, "created_at"@, "updated_at"@];
    let keys = seq!["user_id"@];
    reveal_strlit("SELECT id, shop_id, user_id, created_at, updated_at FROM shop_members WHERE user_id = $1");
    reveal_strlit("SELECT ");
    reveal_strlit(" FROM ");
    reveal_strlit(" WHERE ");
    reveal_strlit(" AND ");
    reveal_strlit(" = ");
    reveal_strlit(", ");
    reveal_strlit("shop_members");
    reveal_strlit("id");
    reveal_strlit("shop_id");
    reveal_strlit("user_id");
    reveal_strlit("created_at");
    reveal_strlit("updated_at");
    lemma_small_placeholders();
    let items = names.map_values(|n: Seq<char>| Item::Column(n));
    let conds = key_conds(keys);
    assert(names.no_duplicates()) by {
        assert forall|i: int, j: int| 0 <= i < names.len() && 0 <= j < names.len() && i != j
            implies names[i] != names[j] by {
            assert(names[i].len() != names[j].len() || names[i][0] != names[j][0]);
        }
    }
    lemma_columns_read_back(items, names);
    reveal_with_fuel(joined, 6);
    assert(items.map_values(|i: Item| item_text(i)) =~= names);
    assert(conds =~= seq![Cond::Eq("user_id"@, 1)]);
    assert(conds.map_values(|c: Cond| cond_text(c)) =~= seq![cond_text(conds[0])]);
    assert(shop_member_store_list_by_user_id_sql() =~= select_text(items, "shop_members"@, conds));
    lemma_key_conds(keys, binds);
}

/// The text of the statement of `TransactionStore::save`.
pub open spec fn transaction_store_save_sql() -> Seq<char> {
    "INSERT INTO transactions (id, sender_wallet_id, receiver_wallet_id, executor_actor_id, amount, description, created_at, updated_at) VALUES ($1, $2, $3, $4, $5, $6, $7, $8)"@
}

/// The statement of `TransactionStore::save` inserts into `transactions` one row in which each of its
/// columns holds its own bound value, in the order `id, sender_wallet_id, receiver_wallet_id, executor_actor_id, amount, description, created_at, updated_at`.
pub proof fn lemma_transaction_store_save(binds: Seq<SqlParamView>)
    requires
        binds.len() == 8,
    ensures
        inserts(transaction_store_save_sql(), "transactions"@, binds, row_of(seq!["id"@, "sender_wallet_id"@, "receiver_wallet_id"@, "executor_actor_id"@, "amount"@, "description"@, "created_at"@, "updated_at"@], binds)),
{
    let columns = seq!["id"@, "sender_wallet_id"@, "receiver_wallet_id"@, "executor_actor_id"@, "amount"@, "description"@, "created_at"@, "updated_at"@];
    reveal_strlit("INSERT INTO transactions (id, sender_wallet_id, receiver_wallet_id, executor_actor_id, amount, description, created_at, updated_at) VALUES ($1, $2, $3, $4, $5, $6, $7, $8)");
    reveal_strlit("INSERT INTO ");
    reveal_strlit(" (");
    reveal_strlit(", ");
    reveal_strlit(") VALUES (");
    reveal_strlit(")");
    reveal_strlit("transactions");
    reveal_strlit("id");
    reveal_strlit("sender_wallet_id");
    reveal_strlit("receiver_wallet_id");
    reveal_strlit("executor_actor_id");
    reveal_strlit("amount");
    reveal_strlit("description");
    reveal_strlit("created_at");
    reveal_strlit("updated_at");
    reveal_with_fuel(joined, 9);
    lemma_small_placeholders();
    assert(ordinals(8) =~= seq![1nat, 2nat, 3nat, 4nat, 5nat, 6nat, 7nat, 8nat]);
    assert(ordinals(8).map_values(|k: nat| placeholder(k)) =~= seq![seq!['$', '1'], seq!['$', '2'], seq!['$', '3'], seq!['$', '4'], seq!['$', '5'], seq!['$', '6'], seq!['$', '7'], seq!['$', '8']]);
    assert(transaction_store_save_sql() =~= insert_text("transactions"@, columns, ordinals(8), Seq::<char>::empty()));
    assert(columns.no_duplicates()) by {
        assert forall|i: int, j: int| 0 <= i < columns.len() && 0 <= j < columns.len() && i != j
            implies columns[i] != columns[j] by {
            assert(columns[i].len() != columns[j].len() || columns[i][0] != columns[j][0]);
        }
    }
    lemma_ordered_insert(columns, binds);
}

/// The text of the statement of `TransactionStore::find_by_id`.
pub open spec fn transaction_store_find_by_id_sql() -> Seq<char> {
    "SELECT id, sender_wallet_id, receiver_wallet_id, executor_actor_id, amount, description, created_at, updated_at FROM transactions WHERE id = $1"@
}

/// The statement of `TransactionStore::find_by_id` selects from `transactions` exactly the rows whose
/// `id` hold the bound values, and returns each of their columns as stored.
pub proof fn lemma_transaction_store_find_by_id(binds: Seq<SqlParamView>)
    requires
        binds.len() == 1,
    ensures
        looks_up(transaction_store_find_by_id_sql(), "transactions"@, binds, with_values(seq!["id"@], binds), seq!["id"@, "sender_wallet_id"@, "receiver_wallet_id"@, "executor_actor_id"@, "amount"@, "description"@, "created_at"@, "updated_at"@]),
{
    let names = seq!["id"@, "sender_wallet_id"@, "receiver_wallet_id"@, "executor_actor_id"@, "amount"@, "description"@, "created_at"@, "updated_at"@];
    let keys = seq!["id"@];
    reveal_strlit("SELECT id, sender_wallet_id, receiver_wallet_id, executor_actor_id, amount, description, created_at, updated_at FROM transactions WHERE id = $1");
    reveal_strlit("SELECT ");
    reveal_strlit(" FROM ");
    reveal_strlit(" WHERE ");
    reveal_strlit(" AND ");
    reveal_strlit(" = ");
    reveal_strlit(", ");
    reveal_strlit("transactions");
    reveal_strlit("id");
    reveal_strlit("sender_wallet_id");
    reveal_strlit("receiver_wallet_id");
    reveal_strlit("executor_actor_id");
    reveal_strlit("amount");
    reveal_strlit("description");
    reveal_strlit("created_at");
    reveal_strlit("updated_at");
    lemma_small_placeholders();
    let items = names.map_values(|n: Seq<char>| Item::Column(n));
    let conds = key_conds(keys);
    assert(names.no_duplicates()) by {
        assert forall|i: int, j: int| 0 <= i < names.len() && 0 <= j < names.len() && i != j
            implies names[i] != names[j] by {
            assert(names[i].len() != names[j].len() || names[i][0] != names[j][0]);
        }
    }
    lemma_columns_read_back(items, names);
    reveal_with_fuel(joined, 9);
    assert(items.map_values(|i: Item| item_text(i)) =~= names);
    assert(conds =~= seq![Cond::Eq("id"@, 1)]);
    assert(conds.map_values(|c: Cond| cond_text(c)) =~= seq![cond_text(conds[0])]);
    assert(transaction_store_find_by_id_sql() =~= select_text(items, "transactions"@, conds));
    lemma_key_conds(keys, binds);
}

/// The text of the statement of `WalletStore::update_by_id`.
pub open spec fn wallet_store_update_by_id_sql() -> Seq<char> {
    "UPDATE wallets SET label = CASE WHEN $2 THEN $3 ELSE label END, allow_overdraft = COALESCE($4, allow_overdraft) WHERE id = $1 RETURNING id, owner_actor_id, label, allow_overdraft, created_at, updated_at"@
}

/// The statement of `WalletStore::update_by_id` changes in `wallets` exactly the row whose `id` is
/// bound to `$1`, assigning `label`, `allow_overdraft` each from its own placeholders.
pub proof fn lemma_wallet_store_update_by_id(binds: Seq<SqlParamView>)
    requires
        binds.len() == 4,
    ensures
        updates(wallet_store_update_by_id_sql(), "wallets"@, binds, seq!["id"@], seq![SetItem::Choose("label"@, 2, 3, false), SetItem::Coalesce("allow_overdraft"@, 4)]),
{
    let sets = seq![SetItem::Choose("label"@, 2, 3, false), SetItem::Coalesce("allow_overdraft"@, 4)];
    reveal_strlit("UPDATE wallets SET label = CASE WHEN $2 THEN $3 ELSE label END, allow_overdraft = COALESCE($4, allow_overdraft) WHERE id = $1 RETURNING id, owner_actor_id, label, allow_overdraft, created_at, updated_at");
    reveal_strlit("UPDATE ");
    reveal_strlit(" SET ");
    reveal_strlit(", ");
    reveal_strlit(" WHERE ");
    reveal_strlit(" AND ");
    reveal_strlit(" = ");
    reveal_strlit(" = COALESCE(");
    reveal_strlit(")");
    reveal_strlit(" = CASE WHEN ");
    reveal_strlit("::boolean");
    reveal_strlit(" THEN ");
    reveal_strlit(" ELSE ");
    reveal_strlit(" END");
    reveal_strlit("wallets");
    reveal_strlit("id");
    reveal_strlit("label");
    reveal_strlit("allow_overdraft");
    reveal_strlit(" RETURNING id, owner_actor_id, label, allow_overdraft, created_at, updated_at");
    lemma_small_placeholders();
    reveal_with_fuel(joined, 3);
    assert(key_conds(seq!["id"@]) =~= seq![Cond::Eq("id"@, 1)]);
    assert(key_conds(seq!["id"@]).map_values(|c: Cond| cond_text(c)) =~= seq![cond_text(Cond::Eq("id"@, 1))]);
    assert(sets.map_values(|i: SetItem| set_text(i)) =~= seq![set_text(sets[0]), set_text(sets[1])]);
    assert(wallet_store_update_by_id_sql() =~= update_text("wallets"@, sets, key_conds(seq!["id"@]), " RETURNING id, owner_actor_id, label, allow_overdraft, created_at, updated_at"@));
    lemma_key_conds(seq!["id"@], binds);
}

/// The text of the statement of `ShopStore::update_by_id`.
pub open spec fn shop_store_update_by_id_sql() -> Seq<char> {
    "UPDATE shops SET owner_user_id = CASE WHEN $2::boolean THEN $3 ELSE owner_user_id END, name = COALESCE($4, name) WHERE id = $1 RETURNING id, owner_user_id, name, created_at, updated_at"@
}

/// The statement of `ShopStore::update_by_id` changes in `shops` exactly the row whose `id` is
/// bound to `$1`, assigning `owner_user_id`, `name` each from its own placeholders.
pub proof fn lemma_shop_store_update_by_id(binds: Seq<SqlParamView>)
    requires
        binds.len() == 4,
    ensures
        updates(shop_store_update_by_id_sql(), "shops"@, binds, seq!["id"@], seq![SetItem::Choose("owner_user_id"@, 2, 3, true), SetItem::Coalesce("name"@, 4)]),
{
    let sets = seq![SetItem::Choose("owner_user_id"@, 2, 3, true), SetItem::Coalesce("name"@, 4)];
    reveal_strlit("UPDATE shops SET owner_user_id = CASE WHEN $2::boolean THEN $3 ELSE owner_user_id END, name = COALESCE($4, name) WHERE id = $1 RETURNING id, owner_user_id, name, created_at, updated_at");
    reveal_strlit("UPDATE ");
    reveal_strlit(" SET ");
    reveal_strlit(", ");
    reveal_strlit(" WHERE ");
    reveal_strlit(" AND ");
    reveal_strlit(" = ");
    reveal_strlit(" = COALESCE(");
    reveal_strlit(")");
    reveal_strlit(" = CASE WHEN ");
    reveal_strlit("::boolean");
    reveal_strlit(" THEN ");
    reveal_strlit(" ELSE ");
    reveal_strlit(" END");
    reveal_strlit("shops");
    reveal_strlit("id");
    reveal_strlit("owner_user_id");
    reveal_strlit("name");
    reveal_strlit(" RETURNING id, owner_user_id, name, created_at, updated_at");
    lemma_small_placeholders();
    reveal_with_fuel(joined, 3);
    assert(key_conds(seq!["id"@]) =~= seq![Cond::Eq("id"@, 1)]);
    assert(key_conds(seq!["id"@]).map_values(|c: Cond| cond_text(c)) =~= seq![cond_text(Cond::Eq("id"@, 1))]);
    assert(sets.map_values(|i: SetItem| set_text(i)) =~= seq![set_text(sets[0]), set_text(sets[1])]);
    assert(shop_store_update_by_id_sql() =~= update_text("shops"@, sets, key_conds(seq!["id"@]), " RETURNING id, owner_user_id, name, created_at, updated_at"@));
    lemma_key_conds(seq!["id"@], binds);
}

/// The text of the statement of `ShopStore::list_all`.
pub open spec fn shop_store_list_all_sql() -> Seq<char> {
    "SELECT id, owner_user_id, name, created_at, updated_at FROM shops"@
}

/// The statement of `ShopStore::list_all` returns every row of `shops`,
/// with each of its columns as stored.
pub proof fn lemma_shop_store_list_all()
    ensures
        lists(shop_store_list_all_sql(), "shops"@, Seq::<char>::empty(), seq!["id"@, "owner_user_id"@, "name"@, "created_at"@, "updated_at"@]),
{
    let names = seq!["id"@, "owner_user_id"@, "name"@, "created_at"@, "updated_at"@];
    reveal_strlit("SELECT id, owner_user_id, name, created_at, updated_at FROM shops");
    reveal_strlit("SELECT ");
    reveal_strlit(" FROM ");
    reveal_strlit(", ");
    reveal_strlit("shops");
    reveal_strlit("id");
    reveal_strlit("owner_user_id");
    reveal_strlit("name");
    reveal_strlit("created_at");
    reveal_strlit("updated_at");
    let items = names.map_values(|n: Seq<char>| Item::Column(n));
    assert(names.no_duplicates()) by {
        assert forall|i: int, j: int| 0 <= i < names.len() && 0 <= j < names.len() && i != j
            implies names[i] != names[j] by {
            assert(names[i].len() != names[j].len() || names[i][0] != names[j][0]);
        }
    }
    lemma_columns_read_back(items, names);
    reveal_with_fuel(joined, 6);
    assert(items.map_values(|i: Item| item_text(i)) =~= names);
    assert(shop_store_list_all_sql() =~= list_text(items, "shops"@, Seq::<char>::empty()));
}

/// The text of the statement of `ShopOfferingStore::update_by_id`.
pub open spec fn shop_offering_store_update_by_id_sql() -> Seq<char> {
    "UPDATE shop_offerings SET name = COALESCE($2, name), description = CASE WHEN $3::boolean THEN $4 ELSE description END, price_cents = COALESCE($5, price_cents) WHERE id = $1 RETURNING id, shop_id, name, description, price_cents, created_at, updated_at"@
}

/// The statement of `ShopOfferingStore::update_by_id` changes in `shop_offerings` exactly the row whose `id` is
/// bound to `$1`, assigning `name`, `description`, `price_cents` each from its own placeholders.
pub proof fn lemma_shop_offering_store_update_by_id(binds: Seq<SqlParamView>)
    requires
        binds.len() == 5,
    ensures
        updates(shop_offering_store_update_by_id_sql(), "shop_offerings"@, binds, seq!["id"@], seq![SetItem::Coalesce("name"@, 2), SetItem::Choose("description"@, 3, 4, true), SetItem::Coalesce("price_cents"@, 5)]),
{
    let sets = seq![SetItem::Coalesce("name"@, 2), SetItem::Choose("description"@, 3, 4, true), SetItem::Coalesce("price_cents"@, 5)];
    reveal_strlit("UPDATE shop_offerings SET name = COALESCE($2, name), description = CASE WHEN $3::boolean THEN $4 ELSE description END, price_cents = COALESCE($5, price_cents) WHERE id = $1 RETURNING id, shop_id, name, description, price_cents, created_at, updated_at");
    reveal_strlit("UPDATE ");
    reveal_strlit(" SET ");
    reveal_strlit(", ");
    reveal_strlit(" WHERE ");
    reveal_strlit(" AND ");
    reveal_strlit(" = ");
    reveal_strlit(" = COALESCE(");
    reveal_strlit(")");
    reveal_strlit(" = CASE WHEN ");
    reveal_strlit("::boolean");
    reveal_strlit(" THEN ");
    reveal_strlit(" ELSE ");
    reveal_strlit(" END");
    reveal_strlit("shop_offerings");
    reveal_strlit("id");
    reveal_strlit("name");
    reveal_strlit("description");
    reveal_strlit("price_cents");
    reveal_strlit(" RETURNING id, shop_id, name, description, price_cents, created_at, updated_at");
    lemma_small_placeholders();
    reveal_with_fuel(joined, 4);
    assert(key_conds(seq!["id"@]) =~= seq![Cond::Eq("id"@, 1)]);
    assert(key_conds(seq!["id"@]).map_values(|c: Cond| cond_text(c)) =~= seq![cond_text(Cond::Eq("id"@, 1))]);
    assert(sets.map_values(|i: SetItem| set_text(i)) =~= seq![set_text(sets[0]), set_text(sets[1]), set_text(sets[2])]);
    assert(shop_offering_store_update_by_id_sql() =~= update_text("shop_offerings"@, sets, key_conds(seq!["id"@]), " RETURNING id, shop_id, name, description, price_cents, created_at, updated_at"@));
    lemma_key_conds(seq!["id"@], binds);
}

/// The store of wallets.
pub struct WalletStore;

impl WalletStore {
    /// Inserts a wallet and returns the stored row.
    pub fn create(creation: &WalletCreation) -> (st: Statement)
        ensures
            st.sql@ == wallet_insert_sql(),
            bound(st) == seq![
                SqlParamView::NullableUuid(opt_id(creation.owner)),
                SqlParamView::NullableText(opt_text(creation.label)),
                SqlParamView::Bool(creation.allow_overdraft),
            ],
            inserts(st.sql@, "wallets"@, bound(st), wallet_row(*creation)),
    {
        proof {
            lemma_wallet_insert_stores_each_field(*creation);
        }
        Statement {
            sql: "INSERT INTO wallets (owner_actor_id, label, allow_overdraft) VALUES ($1, $2, $3) RETURNING id, owner_actor_id, label, allow_overdraft, created_at, updated_at",
            params: three(
                nullable_id_param(&creation.owner),
                nullable_text_param(&creation.label),
                SqlParam::Bool(creation.allow_overdraft),
            ),
        }
    }

    /// Changes a wallet: the label is replaced (or cleared) where `update.label` is
    /// `Some`, and the overdraft setting where `update.allow_overdraft` is `Some`.
    pub fn update_by_id(id: &WalletId, update: &WalletUpdate) -> (st: Statement)
        ensures
            st.sql@ == wallet_store_update_by_id_sql(),
            bound(st) == seq![
                SqlParamView::Uuid(id@),
                SqlParamView::Bool(update.label is Some),
                SqlParamView::NullableText(opt_text(flat(update.label))),
                SqlParamView::NullableBool(update.allow_overdraft),
            ],
            updates(st.sql@, "wallets"@, bound(st), seq!["id"@], seq![SetItem::Choose("label"@, 2, 3, false), SetItem::Coalesce("allow_overdraft"@, 4)]),
    {
        let label = match &update.label {
            Some(inner) => nullable_text_param(inner),
            None => SqlParam::NullableText(None),
        };
        let st = Statement {
            sql: "UPDATE wallets SET label = CASE WHEN $2 THEN $3 ELSE label END, allow_overdraft = COALESCE($4, allow_overdraft) WHERE id = $1 RETURNING id, owner_actor_id, label, allow_overdraft, created_at, updated_at",
            params: four(
                SqlParam::Uuid(id.into_inner()),
                SqlParam::Bool(update.label.is_some()),
                label,
                SqlParam::NullableBool(update.allow_overdraft),
            ),
        };
        proof {
            lemma_wallet_store_update_by_id(bound(st));
        }
        st
    }

    /// Looks a wallet up by its id.
    pub fn find_by_id(id: &WalletId) -> (st: Statement)
        ensures
            st.sql@ == wallet_store_find_by_id_sql(),
            bound(st) == seq![SqlParamView::Uuid(id@)],
            looks_up(st.sql@, "wallets"@, bound(st), with_values(seq!["id"@], bound(st)), seq!["id"@, "owner_actor_id"@, "label"@, "allow_overdraft"@, "created_at"@, "updated_at"@]),
    {
        let st = Statement {
            sql: "SELECT id, owner_actor_id, label, allow_overdraft, created_at, updated_at FROM wallets WHERE id = $1",
            params: one(SqlParam::Uuid(id.into_inner())),
        };
        proof {
            lemma_wallet_store_find_by_id(bound(st));
        }
        st
    }

    /// Looks a system wallet up by its label.
    pub fn find_by_label(label: &str) -> (st: Statement)
        ensures
            st.sql@ == wallet_store_find_by_label_sql(),
            bound(st) == seq![SqlParamView::Text(label@)],
            looks_up(st.sql@, "wallets"@, bound(st), with_values(seq!["label"@], bound(st)), seq!["id"@, "owner_actor_id"@, "label"@, "allow_overdraft"@, "created_at"@, "updated_at"@]),
    {
        let st = Statement {
            sql: "SELECT id, owner_actor_id, label, allow_overdraft, created_at, updated_at FROM wallets WHERE label = $1",
            params: one(SqlParam::Text(String::from_str(label))),
        };
        proof {
            lemma_wallet_store_find_by_label(bound(st));
        }
        st
    }
}

/// The store of shops.
pub struct ShopStore;

impl ShopStore {
    /// Inserts a shop and returns the stored row.
    pub fn create(creation: &ShopCreation) -> (st: Statement)
        ensures
            st.sql@ == shop_store_create_sql(),
            bound(st) == seq![
                SqlParamView::NullableUuid(opt_id(creation.owner)),
                SqlParamView::Text(creation.name@),
            ],
            inserts(st.sql@, "shops"@, bound(st), row_of(seq!["owner_user_id"@, "name"@], bound(st))),
    {
        let st = Statement {
            sql: "INSERT INTO shops (owner_user_id, name) VALUES ($1, $2) RETURNING id, owner_user_id, name, created_at, updated_at",
            params: two(nullable_id_param(&creation.owner), text_param(&creation.name)),
        };
        proof {
            lemma_shop_store_create(bound(st));
        }
        st
    }

    /// Changes a shop: the owner is replaced (or cleared) where `update.owner` is `Some`,
    /// and the name where `update.name` is `Some`.
    pub fn update_by_id(id: &ShopId, update: &ShopUpdate) -> (st: Statement)
        ensures
            st.sql@ == shop_store_update_by_id_sql(),
            bound(st) == seq![
                SqlParamView::Uuid(id@),
                SqlParamView::Bool(update.owner is Some),
                SqlParamView::NullableUuid(opt_id(flat(update.owner))),
                SqlParamView::NullableText(opt_text(update.name)),
            ],
            updates(st.sql@, "shops"@, bound(st), seq!["id"@], seq![SetItem::Choose("owner_user_id"@, 2, 3, true), SetItem::Coalesce("name"@, 4)]),
    {
        let owner = match &update.owner {
            Some(inner) => nullable_id_param(inner),
            None => SqlParam::NullableUuid(None),
        };
        let st = Statement {
            sql: "UPDATE shops SET owner_user_id = CASE WHEN $2::boolean THEN $3 ELSE owner_user_id END, name = COALESCE($4, name) WHERE id = $1 RETURNING id, owner_user_id, name, created_at, updated_at",
            params: four(
                SqlParam::Uuid(id.into_inner()),
                SqlParam::Bool(update.owner.is_some()),
                owner,
                nullable_text_param(&update.name),
            ),
        };
        proof {
            lemma_shop_store_update_by_id(bound(st));
        }
        st
    }

    /// Looks a shop up by its id.
    pub fn find_by_id(id: &ShopId) -> (st: Statement)
        ensures
            st.sql@ == shop_store_find_by_id_sql(),
            bound(st) == seq![SqlParamView::Uuid(id@)],
            looks_up(st.sql@, "shops"@, bound(st), with_values(seq!["id"@], bound(st)), seq!["id"@, "owner_user_id"@, "name"@, "created_at"@, "updated_at"@]),
    {
        let st = Statement {
            sql: "SELECT id, owner_user_id, name, created_at, updated_at FROM shops WHERE id = $1",
            params: one(SqlParam::Uuid(id.into_inner())),
        };
        proof {
            lemma_shop_store_find_by_id(bound(st));
        }
        st
    }

    /// Lists all shops.
    pub fn list_all() -> (st: Statement)
        ensures
            st.sql@ == shop_store_list_all_sql(),
            bound(st) == Seq::<SqlParamView>::empty(),
            lists(st.sql@, "shops"@, Seq::<char>::empty(), seq!["id"@, "owner_user_id"@, "name"@, "created_at"@, "updated_at"@]),
    {
        let st = Statement {
            sql: "SELECT id, owner_user_id, name, created_at, updated_at FROM shops",
            params: crate::stores::none(),
        };
        proof {
            lemma_shop_store_list_all();
        }
        st
    }
}

/// The price column's value for a price in minor units: its low 32 bits, as a signed
/// integer (the column is an `integer`).
pub open spec fn price_cents(price_minor: i64) -> i32 {
    price_minor as i32
}

fn price_cents_of(price_minor: i64) -> (c: i32)
    ensures
        c == price_cents(price_minor),
{
    price_minor as i32
}

/// The store of the offerings of shops.
pub struct ShopOfferingStore;

impl ShopOfferingStore {
    /// Adds an offering to a shop and returns the stored row.
    pub fn create(shop_id: &ShopId, creation: &ShopOfferingCreation) -> (st: Statement)
        ensures
            st.sql@ == shop_offering_store_create_sql(),
            bound(st) == seq![
                SqlParamView::Uuid(shop_id@),
                SqlParamView::Text(creation.name@),
                SqlParamView::NullableText(opt_text(creation.description)),
                SqlParamView::Int(price_cents(creation.price_minor)),
            ],
            inserts(st.sql@, "shop_offerings"@, bound(st), row_of(seq!["shop_id"@, "name"@, "description"@, "price_cents"@], bound(st))),
    {
        let st = Statement {
            sql: "INSERT INTO shop_offerings (shop_id, name, description, price_cents) VALUES ($1, $2, $3, $4) RETURNING id, shop_id, name, description, price_cents, created_at, updated_at",
            params: four(
                SqlParam::Uuid(shop_id.into_inner()),
                text_param(&creation.name),
                nullable_text_param(&creation.description),
                SqlParam::Int(price_cents_of(creation.price_minor)),
            ),
        };
        proof {
            lemma_shop_offering_store_create(bound(st));
        }
        st
    }

    /// Changes an offering: the name and the price where given, and the description
    /// replaced (or cleared) where `update.description` is `Some`.
    pub fn update_by_id(id: &ShopOfferingId, update: &ShopOfferingUpdate) -> (st: Statement)
        ensures
            st.sql@ == shop_offering_store_update_by_id_sql(),
            bound(st) == seq![
                SqlParamView::Uuid(id@),
                SqlParamView::NullableText(opt_text(update.name)),
                SqlParamView::Bool(update.description is Some),
                SqlParamView::NullableText(opt_text(flat(update.description))),
                SqlParamView::NullableInt(
                    match update.price_minor {
                        Some(p) => Some(price_cents(p)),
                        None => None,
                    },
                ),
            ],
            updates(st.sql@, "shop_offerings"@, bound(st), seq!["id"@], seq![SetItem::Coalesce("name"@, 2), SetItem::Choose("description"@, 3, 4, true), SetItem::Coalesce("price_cents"@, 5)]),
    {
        let description = match &update.description {
            Some(inner) => nullable_text_param(inner),
            None => SqlParam::NullableText(None),
        };
        let price = match update.price_minor {
            Some(p) => SqlParam::NullableInt(Some(price_cents_of(p))),
            None => SqlParam::NullableInt(None),
        };
        let st = Statement {
            sql: "UPDATE shop_offerings SET name = COALESCE($2, name), description = CASE WHEN $3::boolean THEN $4 ELSE description END, price_cents = COALESCE($5, price_cents) WHERE id = $1 RETURNING id, shop_id, name, description, price_cents, created_at, updated_at",
            params: five(
                SqlParam::Uuid(id.into_inner()),
                nullable_text_param(&update.name),
                SqlParam::Bool(update.description.is_some()),
                description,
                price,
            ),
        };
        proof {
            lemma_shop_offering_store_update_by_id(bound(st));
        }
        st
    }

    /// Deletes an offering.
    pub fn delete_by_id(id: &ShopOfferingId) -> (st: Statement)
        ensures
            st.sql@ == shop_offering_store_delete_by_id_sql(),
            bound(st) == seq![SqlParamView::Uuid(id@)],
            deletes(st.sql@, "shop_offerings"@, bound(st), with_values(seq!["id"@], bound(st))),
    {
        let st = Statement {
            sql: "DELETE FROM shop_offerings WHERE id = $1",
            params: one(SqlParam::Uuid(id.into_inner())),
        };
        proof {
            lemma_shop_offering_store_delete_by_id(bound(st));
        }
        st
    }

    /// Looks an offering up by its id.
    pub fn find_by_id(id: &ShopOfferingId) -> (st: Statement)
        ensures
            st.sql@ == shop_offering_store_find_by_id_sql(),
            bound(st) == seq![SqlParamView::Uuid(id@)],
            looks_up(st.sql@, "shop_offerings"@, bound(st), with_values(seq!["id"@], bound(st)), seq!["id"@, "shop_id"@, "name"@, "description"@, "price_cents"@, "created_at"@, "updated_at"@]),
    {
        let st = Statement {
            sql: "SELECT id, shop_id, name, description, price_cents, created_at, updated_at FROM shop_offerings WHERE id = $1",
            params: one(SqlParam::Uuid(id.into_inner())),
        };
        proof {
            lemma_shop_offering_store_find_by_id(bound(st));
        }
        st
    }

    /// Lists the offerings of a shop.
    pub fn list_by_shop_id(shop_id: &ShopId) -> (st: Statement)
        ensures
            st.sql@ == shop_offering_store_list_by_shop_id_sql(),
            bound(st) == seq![SqlParamView::Uuid(shop_id@)],
            looks_up(st.sql@, "shop_offerings"@, bound(st), with_values(seq!["shop_id"@], bound(st)), seq!["id"@, "shop_id"@, "name"@, "description"@, "price_cents"@, "created_at"@, "updated_at"@]),
    {
        let st = Statement {
            sql: "SELECT id, shop_id, name, description, price_cents, created_at, updated_at FROM shop_offerings WHERE shop_id = $1",
            params: one(SqlParam::Uuid(shop_id.into_inner())),
        };
        proof {
            lemma_shop_offering_store_list_by_shop_id(bound(st));
        }
        st
    }
}

/// The store of shop memberships.
pub struct ShopMemberStore;

impl ShopMemberStore {
    /// Makes a user a member of a shop and returns the stored row.
    pub fn create(shop_id: &ShopId, user_id: &UserId) -> (st: Statement)
        ensures
            st.sql@ == shop_member_store_create_sql(),
            bound(st) == seq![SqlParamView::Uuid(shop_id@), SqlParamView::Uuid(user_id@)],
            inserts(st.sql@, "shop_members"@, bound(st), row_of(seq!["shop_id"@, "user_id"@], bound(st))),
    {
        let st = Statement {
            sql: "INSERT INTO shop_members (shop_id, user_id) VALUES ($1, $2) RETURNING id, shop_id, user_id, created_at, updated_at",
            params: two(SqlParam::Uuid(shop_id.into_inner()), SqlParam::Uuid(user_id.into_inner())),
        };
        proof {
            lemma_shop_member_store_create(bound(st));
        }
        st
    }

    /// Removes a user from a shop.
    pub fn delete_by_shop_and_user_id(shop_id: &ShopId, user_id: &UserId) -> (st: Statement)
        ensures
            st.sql@ == shop_member_store_delete_by_shop_and_user_id_sql(),
            bound(st) == seq![SqlParamView::Uuid(shop_id@), SqlParamView::Uuid(user_id@)],
            deletes(st.sql@, "shop_members"@, bound(st), with_values(seq!["shop_id"@, "user_id"@], bound(st))),
    {
        let st = Statement {
            sql: "DELETE FROM shop_members WHERE shop_id = $1 AND user_id = $2",
            params: two(SqlParam::Uuid(shop_id.into_inner()), SqlParam::Uuid(user_id.into_inner())),
        };
        proof {
            lemma_shop_member_store_delete_by_shop_and_user_id(bound(st));
        }
        st
    }

    /// Looks a membership up by its id.
    pub fn find_by_id(id: &ShopMemberId) -> (st: Statement)
        ensures
            st.sql@ == shop_member_store_find_by_id_sql(),
            bound(st) == seq![SqlParamView::Uuid(id@)],
            looks_up(st.sql@, "shop_members"@, bound(st), with_values(seq!["id"@], bound(st)), seq!["id"@, "shop_id"@, "user_id"@, "created_at"@, "updated_at"@]),
    {
        let st = Statement {
            sql: "SELECT id, shop_id, user_id, created_at, updated_at FROM shop_members WHERE id = $1",
            params: one(SqlParam::Uuid(id.into_inner())),
        };
        proof {
            lemma_shop_member_store_find_by_id(bound(st));
        }
        st
    }

    /// Looks up the membership of a user in a shop.
    pub fn find_by_shop_and_user_id(shop_id: &ShopId, user_id: &UserId) -> (st: Statement)
        ensures
            st.sql@ == shop_member_store_find_by_shop_and_user_id_sql(),
            bound(st) == seq![SqlParamView::Uuid(shop_id@), SqlParamView::Uuid(user_id@)],
            looks_up(st.sql@, "shop_members"@, bound(st), with_values(seq!["shop_id"@, "user_id"@], bound(st)), seq!["id"@, "shop_id"@, "user_id"@, "created_at"@, "updated_at"@]),
    {
        let st = Statement {
            sql: "SELECT id, shop_id, user_id, created_at, updated_at FROM shop_members WHERE shop_id = $1 AND user_id = $2",
            params: two(SqlParam::Uuid(shop_id.into_inner()), SqlParam::Uuid(user_id.into_inner())),
        };
        proof {
            lemma_shop_member_store_find_by_shop_and_user_id(bound(st));
        }
        st
    }

    /// Lists the members of a shop.
    pub fn list_by_shop_id(shop_id: &ShopId) -> (st: Statement)
        ensures
            st.sql@ == shop_member_store_list_by_shop_id_sql(),
            bound(st) == seq![SqlParamView::Uuid(shop_id@)],
            looks_up(st.sql@, "shop_members"@, bound(st), with_values(seq!["shop_id"@], bound(st)), seq!["id"@, "shop_id"@, "user_id"@, "created_at"@, "updated_at"@]),
    {
        let st = Statement {
            sql: "SELECT id, shop_id, user_id, created_at, updated_at FROM shop_members WHERE shop_id = $1",
            params: one(SqlParam::Uuid(shop_id.into_inner())),
        };
        proof {
            lemma_shop_member_store_list_by_shop_id(bound(st));
        }
        st
    }

    /// Lists the shop memberships of a user.
    pub fn list_by_user_id(user_id: &UserId) -> (st: Statement)
        ensures
            st.sql@ == shop_member_store_list_by_user_id_sql(),
            bound(st) == seq![SqlParamView::Uuid(user_id@)],
            looks_up(st.sql@, "shop_members"@, bound(st), with_values(seq!["user_id"@], bound(st)), seq!["id"@, "shop_id"@, "user_id"@, "created_at"@, "updated_at"@]),
    {
        let st = Statement {
            sql: "SELECT id, shop_id, user_id, created_at, updated_at FROM shop_members WHERE user_id = $1",
            params: one(SqlParam::Uuid(user_id.into_inner())),
        };
        proof {
            lemma_shop_member_store_list_by_user_id(bound(st));
        }
        st
    }
}

/// The values bound when a transaction is saved, in the order of its columns.
pub open spec fn transaction_values(t: TransactionEntry) -> Seq<SqlParamView> {
    seq![
        SqlParamView::Uuid(t.id@),
        SqlParamView::Uuid(t.sender_wallet_id@),
        SqlParamView::Uuid(t.receiver_wallet_id@),
        SqlParamView::Uuid(t.executor_actor_id@),
        SqlParamView::BigInt(t.amount),
        SqlParamView::NullableText(opt_text(t.description)),
        SqlParamView::Timestamp(t.created_at),
        SqlParamView::Timestamp(t.updated_at),
    ]
}

/// What one transaction, given as (sender wallet, receiver wallet, amount), adds to the
/// balance of `wallet` in the balance statement: its amount where the wallet receives
/// it, minus its amount where the wallet sends it, nothing otherwise.
pub open spec fn balance_effect(t: (u128, u128, i64), wallet: u128) -> int {
    if t.1 == wallet {
        t.2 as int
    } else if t.0 == wallet {
        -(t.2 as int)
    } else {
        0
    }
}

/// The balance that `balance_by_wallet_id` computes for `wallet` over the transactions
/// `txs`: the sum of their effects, 0 where none touches the wallet.
pub open spec fn ledger_balance(txs: Seq<(u128, u128, i64)>, wallet: u128) -> int
    decreases txs.len(),
{
    if txs.len() == 0 {
        0
    } else {
        ledger_balance(txs.drop_last(), wallet) + balance_effect(txs.last(), wallet)
    }
}

/// The total amount that `wallet` received in `txs`.
pub open spec fn received(txs: Seq<(u128, u128, i64)>, wallet: u128) -> int
    decreases txs.len(),
{
    if txs.len() == 0 {
        0
    } else {
        received(txs.drop_last(), wallet) + if txs.last().1 == wallet {
            txs.last().2 as int
        } else {
            0
        }
    }
}

/// The total amount that `wallet` sent in `txs`.
pub open spec fn sent(txs: Seq<(u128, u128, i64)>, wallet: u128) -> int
    decreases txs.len(),
{
    if txs.len() == 0 {
        0
    } else {
        sent(txs.drop_last(), wallet) + if txs.last().0 == wallet {
            txs.last().2 as int
        } else {
            0
        }
    }
}

/// No transaction goes from a wallet to itself.
pub open spec fn no_self_transfers(txs: Seq<(u128, u128, i64)>) -> bool {
    forall|i: int| 0 <= i < txs.len() ==> #[trigger] txs[i].0 != txs[i].1
}

/// A wallet's balance is what it received less what it sent.
pub proof fn lemma_balance_is_received_less_sent(txs: Seq<(u128, u128, i64)>, wallet: u128)
    requires
        no_self_transfers(txs),
    ensures
        ledger_balance(txs, wallet) == received(txs, wallet) - sent(txs, wallet),
    decreases txs.len(),
{
    if txs.len() > 0 {
        let rest = txs.drop_last();
        assert(no_self_transfers(rest)) by {
            assert forall|i: int| 0 <= i < rest.len() implies #[trigger] rest[i].0 != rest[i].1 by {
                assert(rest[i] == txs[i]);
            }
        }
        assert(txs[txs.len() - 1].0 != txs[txs.len() - 1].1);
        lemma_balance_is_received_less_sent(rest, wallet);
    }
}

/// The sum of the balances of `wallets` over `txs`.
pub open spec fn total_balance(txs: Seq<(u128, u128, i64)>, wallets: Seq<u128>) -> int
    decreases wallets.len(),
{
    if wallets.len() == 0 {
        0
    } else {
        total_balance(txs, wallets.drop_last()) + ledger_balance(txs, wallets.last())
    }
}

/// The sum of what one transaction adds to the balances of `wallets`.
pub open spec fn total_effect(t: (u128, u128, i64), wallets: Seq<u128>) -> int
    decreases wallets.len(),
{
    if wallets.len() == 0 {
        0
    } else {
        total_effect(t, wallets.drop_last()) + balance_effect(t, wallets.last())
    }
}

proof fn lemma_total_effect(t: (u128, u128, i64), wallets: Seq<u128>)
    requires
        wallets.no_duplicates(),
        t.0 != t.1,
    ensures
        total_effect(t, wallets) == (if wallets.contains(t.1) {
            t.2 as int
        } else {
            0
        }) - (if wallets.contains(t.0) {
            t.2 as int
        } else {
            0
        }),
    decreases wallets.len(),
{
    if wallets.len() > 0 {
        let rest = wallets.drop_last();
        let w = wallets.last();
        assert(rest.no_duplicates());
        lemma_total_effect(t, rest);
        assert forall|x: u128| wallets.contains(x) <==> (rest.contains(x) || x == w) by {
            if wallets.contains(x) {
                let k = choose|k: int| 0 <= k < wallets.len() && wallets[k] == x;
                if k < wallets.len() - 1 {
                    assert(rest[k] == x);
                }
            }
            if rest.contains(x) {
                let k = choose|k: int| 0 <= k < rest.len() && rest[k] == x;
                assert(wallets[k] == x);
            }
            if x == w {
                assert(wallets[wallets.len() - 1] == x);
            }
        }
        assert(!rest.contains(w)) by {
            if rest.contains(w) {
                let k = choose|k: int| 0 <= k < rest.len() && rest[k] == w;
                assert(wallets[k] == wallets[wallets.len() - 1]);
            }
        }
    }
}

proof fn lemma_total_push(txs: Seq<(u128, u128, i64)>, t: (u128, u128, i64), wallets: Seq<u128>)
    ensures
        total_balance(txs.push(t), wallets) == total_balance(txs, wallets) + total_effect(t, wallets),
    decreases wallets.len(),
{
    if wallets.len() > 0 {
        lemma_total_push(txs, t, wallets.drop_last());
        assert(txs.push(t).drop_last() =~= txs);
    }
}

/// Money moves between wallets and is never made or lost: over every list of distinct
/// wallets that takes in each sender and receiver, the balances sum to 0.
pub proof fn lemma_balances_sum_to_zero(txs: Seq<(u128, u128, i64)>, wallets: Seq<u128>)
    requires
        no_self_transfers(txs),
        wallets.no_duplicates(),
        forall|i: int| 0 <= i < txs.len() ==> wallets.contains(#[trigger] txs[i].0) && wallets.contains(txs[i].1),
    ensures
        total_balance(txs, wallets) == 0,
    decreases txs.len(),
{
    if txs.len() == 0 {
        assert(txs =~= Seq::<(u128, u128, i64)>::empty());
        lemma_total_empty(wallets);
    } else {
        let rest = txs.drop_last();
        let t = txs.last();
        assert(no_self_transfers(rest)) by {
            assert forall|i: int| 0 <= i < rest.len() implies #[trigger] rest[i].0 != rest[i].1 by {
                assert(rest[i] == txs[i]);
            }
        }
        assert forall|i: int| 0 <= i < rest.len() implies wallets.contains(#[trigger] rest[i].0)
            && wallets.contains(rest[i].1) by {
            assert(rest[i] == txs[i]);
        }
        lemma_balances_sum_to_zero(rest, wallets);
        assert(txs[txs.len() - 1].0 != txs[txs.len() - 1].1);
        assert(wallets.contains(txs[txs.len() - 1].0));
        assert(wallets.contains(txs[txs.len() - 1].1));
        lemma_total_effect(t, wallets);
        assert(rest.push(t) =~= txs);
        lemma_total_push(rest, t, wallets);
    }
}

proof fn lemma_total_empty(wallets: Seq<u128>)
    ensures
        total_balance(Seq::<(u128, u128, i64)>::empty(), wallets) == 0,
    decreases wallets.len(),
{
    if wallets.len() > 0 {
        lemma_total_empty(wallets.drop_last());
    }
}

/// The text of the statement of `TransactionStore::balance_by_wallet_id`.
pub open spec fn balance_sql() -> Seq<char> {
    "SELECT COALESCE(SUM(CASE WHEN receiver_wallet_id = $1 THEN amount WHEN sender_wallet_id = $1 THEN -amount ELSE 0 END), 0) AS balance FROM transactions"@
}

/// The text `SELECT COALESCE(SUM(CASE WHEN received = $1 THEN amount WHEN sent = $1 THEN
/// -amount ELSE 0 END), 0) AS balance FROM table`.
pub open spec fn balance_text(
    received: Seq<char>,
    sent: Seq<char>,
    amount: Seq<char>,
    table: Seq<char>,
) -> Seq<char> {
    "SELECT COALESCE(SUM(CASE WHEN "@ + received + " = "@ + placeholder(1) + " THEN "@ + amount
        + " WHEN "@ + sent + " = "@ + placeholder(1) + " THEN -"@ + amount
        + " ELSE 0 END), 0) AS balance FROM "@ + table
}

/// A transaction as a row of `transactions`: its sender, its receiver and its amount.
pub open spec fn transaction_row(t: (u128, u128, i64)) -> Map<Seq<char>, DbValue> {
    Map::<Seq<char>, DbValue>::empty().insert("sender_wallet_id"@, DbValue::Uuid(t.0)).insert(
        "receiver_wallet_id"@,
        DbValue::Uuid(t.1),
    ).insert("amount"@, DbValue::Int(t.2 as int))
}

/// What the `CASE` of a balance statement adds for `row`, with `wallet` bound to `$1`: the
/// row's `amount` where its `received` column is the wallet, its negation where its `sent`
/// column is, nothing otherwise.
pub open spec fn case_value(
    received: Seq<char>,
    sent: Seq<char>,
    amount: Seq<char>,
    wallet: u128,
    row: Map<Seq<char>, DbValue>,
) -> int {
    let value = match row[amount] {
        DbValue::Int(n) => n,
        _ => 0,
    };
    if row[received] == DbValue::Uuid(wallet) {
        value
    } else if row[sent] == DbValue::Uuid(wallet) {
        -value
    } else {
        0
    }
}

/// `sql`, with a wallet bound to `$1`, sums over `table` what each transaction adds to the
/// wallet's balance: its amount where the wallet receives it, minus it where the wallet
/// sends it, so that the sum over a ledger is `ledger_balance`.
pub open spec fn sums_balances(sql: Seq<char>, table: Seq<char>) -> bool {
    exists|received: Seq<char>, sent: Seq<char>, amount: Seq<char>|
        #![trigger balance_text(received, sent, amount, table)]
        sql == balance_text(received, sent, amount, table) && (forall|
            t: (u128, u128, i64),
            wallet: u128,
        |
            #[trigger] case_value(received, sent, amount, wallet, transaction_row(t))
                == balance_effect(t, wallet))
}

/// The balance statement adds each transaction's amount to the wallet that receives it and
/// takes it from the wallet that sends it: summed over the transactions, it is
/// `ledger_balance`.
pub proof fn lemma_balance_statement()
    ensures
        sums_balances(balance_sql(), "transactions"@),
{
    reveal_strlit("SELECT COALESCE(SUM(CASE WHEN receiver_wallet_id = $1 THEN amount WHEN sender_wallet_id = $1 THEN -amount ELSE 0 END), 0) AS balance FROM transactions");
    reveal_strlit("SELECT COALESCE(SUM(CASE WHEN ");
    reveal_strlit(" = ");
    reveal_strlit(" THEN ");
    reveal_strlit(" WHEN ");
    reveal_strlit(" THEN -");
    reveal_strlit(" ELSE 0 END), 0) AS balance FROM ");
    reveal_strlit("receiver_wallet_id");
    reveal_strlit("sender_wallet_id");
    reveal_strlit("amount");
    reveal_strlit("transactions");
    lemma_small_placeholders();
    let received = "receiver_wallet_id"@;
    let sent = "sender_wallet_id"@;
    let amount = "amount"@;
    assert(balance_sql() =~= balance_text(received, sent, amount, "transactions"@));
    assert(received[0] != sent[0] && received.len() != amount.len() && sent.len() != amount.len());
    assert forall|t: (u128, u128, i64), wallet: u128| #[trigger]
        case_value(received, sent, amount, wallet, transaction_row(t)) == balance_effect(t, wallet) by {
        assert(transaction_row(t)[amount] == DbValue::Int(t.2 as int));
        assert(transaction_row(t)[received] == DbValue::Uuid(t.1));
        assert(transaction_row(t)[sent] == DbValue::Uuid(t.0));
    }
}

/// The store of transactions.
pub struct TransactionStore;

impl TransactionStore {
    /// Saves a transaction.
    pub fn save(transaction: &TransactionEntry) -> (st: Statement)
        ensures
            st.sql@ == transaction_store_save_sql(),
            bound(st) == transaction_values(*transaction),
            inserts(st.sql@, "transactions"@, bound(st), row_of(seq!["id"@, "sender_wallet_id"@, "receiver_wallet_id"@, "executor_actor_id"@, "amount"@, "description"@, "created_at"@, "updated_at"@], bound(st))),
    {
        let mut params: Vec<SqlParam> = Vec::new();
        params.push(SqlParam::Uuid(transaction.id.into_inner()));
        params.push(SqlParam::Uuid(transaction.sender_wallet_id.into_inner()));
        params.push(SqlParam::Uuid(transaction.receiver_wallet_id.into_inner()));
        params.push(SqlParam::Uuid(transaction.executor_actor_id.into_inner()));
        params.push(SqlParam::BigInt(transaction.amount));
        params.push(nullable_text_param(&transaction.description));
        params.push(SqlParam::Timestamp(transaction.created_at));
        params.push(SqlParam::Timestamp(transaction.updated_at));
        assert(params@.map_values(|p: SqlParam| p@) =~= transaction_values(*transaction));
        let st = Statement {
            sql: "INSERT INTO transactions (id, sender_wallet_id, receiver_wallet_id, executor_actor_id, amount, description, created_at, updated_at) VALUES ($1, $2, $3, $4, $5, $6, $7, $8)",
            params,
        };
        proof {
            lemma_transaction_store_save(bound(st));
        }
        st
    }

    /// The balance read back by `balance_by_wallet_id`; no row reads as 0.
    pub fn balance(row: Option<i64>) -> (b: i64)
        ensures
            b == match row {
                Some(v) => v,
                None => 0,
            },
    {
        match row {
            Some(v) => v,
            None => 0,
        }
    }

    /// Looks a transaction up by its id.
    pub fn find_by_id(id: &TransactionId) -> (st: Statement)
        ensures
            st.sql@ == transaction_store_find_by_id_sql(),
            bound(st) == seq![SqlParamView::Uuid(id@)],
            looks_up(st.sql@, "transactions"@, bound(st), with_values(seq!["id"@], bound(st)), seq!["id"@, "sender_wallet_id"@, "receiver_wallet_id"@, "executor_actor_id"@, "amount"@, "description"@, "created_at"@, "updated_at"@]),
    {
        let st = Statement {
            sql: "SELECT id, sender_wallet_id, receiver_wallet_id, executor_actor_id, amount, description, created_at, updated_at FROM transactions WHERE id = $1",
            params: one(SqlParam::Uuid(id.into_inner())),
        };
        proof {
            lemma_transaction_store_find_by_id(bound(st));
        }
        st
    }

    /// The balance of a wallet: what it received less what it sent, 0 with no
    /// transactions. Over the transactions `txs` of the table, the statement computes
    /// `ledger_balance(txs, wallet)`.
    pub fn balance_by_wallet_id(wallet_id: &WalletId) -> (st: Statement)
        ensures
            st.sql@ == balance_sql(),
            sums_balances(st.sql@, "transactions"@),
            bound(st) == seq![SqlParamView::Uuid(wallet_id@)],
    {
        proof {
            lemma_balance_statement();
        }
        Statement {
            sql: "SELECT COALESCE(SUM(CASE WHEN receiver_wallet_id = $1 THEN amount WHEN sender_wallet_id = $1 THEN -amount ELSE 0 END), 0) AS balance FROM transactions",
            params: one(SqlParam::Uuid(wallet_id.into_inner())),
        }
    }
}

} // verus!
