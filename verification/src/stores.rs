//! The statements of the role stores. Each method states the SQL it runs and the values
//! it binds; the caller runs the statement and reads the rows.
use crate::models::{
    RoleCreation, RoleId, RolePermissionCreation, RolePermissionId, UserId, UserRoleCreation,
    UserRoleId,
};
use crate::sql::{
    all_hold, bound_value, cond_holds, cond_text, delete_text, deletes, holds, insert_text,
    inserted_row, inserts, item_text, key_conds, lemma_columns_read_back, lemma_key_conds,
    lemma_ordered_insert, lemma_single_condition, lemma_small_placeholders, list_text, lists,
    looks_up, ordinals, placeholder, row_of, select_text, with_value, with_values, Cond, DbValue,
    Item,
};
use crate::text::joined;
use vstd::prelude::*;

verus! {

/// The text of the statement of `RoleStore::find_by_name`.
pub open spec fn role_by_name_sql() -> Seq<char> {
    "SELECT id, name, description, created_at FROM roles WHERE name = $1"@
}

/// The text of the statement of `UserRoleStore::assign_existing`.
pub open spec fn assignment_lookup_sql() -> Seq<char> {
    "SELECT id, user_id, role_id, created_at FROM user_roles WHERE user_id = $1 AND role_id = $2"@
}

/// A value bound to a statement parameter.
pub enum SqlParam {
    Uuid(u128),
    Text(String),
    NullableText(Option<String>),
    NullableUuid(Option<u128>),
    Bool(bool),
    NullableBool(Option<bool>),
    /// An `integer` value.
    Int(i32),
    NullableInt(Option<i32>),
    /// A `bigint` value.
    BigInt(i64),
    /// A `timestamptz` value, in microseconds since the Unix epoch (UTC).
    Timestamp(i64),
}

/// The mathematical value of a bound value.
pub enum SqlParamView {
    Uuid(u128),
    Text(Seq<char>),
    NullableText(Option<Seq<char>>),
    NullableUuid(Option<u128>),
    Bool(bool),
    NullableBool(Option<bool>),
    Int(i32),
    NullableInt(Option<i32>),
    BigInt(i64),
    Timestamp(i64),
}

impl View for SqlParam {
    type V = SqlParamView;

    open spec fn view(&self) -> SqlParamView {
        match self {
            SqlParam::Uuid(u) => SqlParamView::Uuid(*u),
            SqlParam::Text(t) => SqlParamView::Text(t@),
            SqlParam::NullableText(t) => SqlParamView::NullableText(
                match t {
                    Some(t) => Some(t@),
                    None => None,
                },
            ),
            SqlParam::NullableUuid(u) => SqlParamView::NullableUuid(*u),
            SqlParam::Bool(b) => SqlParamView::Bool(*b),
            SqlParam::NullableBool(b) => SqlParamView::NullableBool(*b),
            SqlParam::Int(n) => SqlParamView::Int(*n),
            SqlParam::NullableInt(n) => SqlParamView::NullableInt(*n),
            SqlParam::BigInt(n) => SqlParamView::BigInt(*n),
            SqlParam::Timestamp(t) => SqlParamView::Timestamp(*t),
        }
    }
}

/// A SQL statement with the values bound to `$1`, `$2`, ... in order.
pub struct Statement {
    pub sql: &'static str,
    pub params: Vec<SqlParam>,
}

/// The values bound by a statement.
pub open spec fn bound(st: Statement) -> Seq<SqlParamView> {
    st.params@.map_values(|p: SqlParam| p@)
}

/// The text of an optional string.
pub open spec fn opt_text(o: Option<String>) -> Option<Seq<char>> {
    match o {
        Some(t) => Some(t@),
        None => None,
    }
}

pub(crate) fn text_param(s: &String) -> (p: SqlParam)
    ensures
        p@ == SqlParamView::Text(s@),
{
    SqlParam::Text(s.clone())
}

pub(crate) fn nullable_text_param(s: &Option<String>) -> (p: SqlParam)
    ensures
        p@ == SqlParamView::NullableText(
            match s {
                Some(t) => Some(t@),
                None => None,
            },
        ),
{
    match s {
        Some(t) => SqlParam::NullableText(Some(t.clone())),
        None => SqlParam::NullableText(None),
    }
}

pub(crate) fn one(p: SqlParam) -> (v: Vec<SqlParam>)
    ensures
        v@.map_values(|q: SqlParam| q@) == seq![p@],
{
    let mut v = Vec::new();
    v.push(p);
    assert(v@.map_values(|q: SqlParam| q@) =~= seq![p@]);
    v
}

pub(crate) fn two(p: SqlParam, q: SqlParam) -> (v: Vec<SqlParam>)
    ensures
        v@.map_values(|r: SqlParam| r@) == seq![p@, q@],
{
    let mut v = Vec::new();
    v.push(p);
    v.push(q);
    assert(v@.map_values(|r: SqlParam| r@) =~= seq![p@, q@]);
    v
}

pub(crate) fn three(p: SqlParam, q: SqlParam, r: SqlParam) -> (v: Vec<SqlParam>)
    ensures
        v@.map_values(|x: SqlParam| x@) == seq![p@, q@, r@],
{
    let mut v = Vec::new();
    v.push(p);
    v.push(q);
    v.push(r);
    assert(v@.map_values(|x: SqlParam| x@) =~= seq![p@, q@, r@]);
    v
}

pub(crate) fn five(p: SqlParam, q: SqlParam, r: SqlParam, s: SqlParam, t: SqlParam) -> (v: Vec<
    SqlParam,
>)
    ensures
        v@.map_values(|x: SqlParam| x@) == seq![p@, q@, r@, s@, t@],
{
    let mut v = Vec::new();
    v.push(p);
    v.push(q);
    v.push(r);
    v.push(s);
    v.push(t);
    assert(v@.map_values(|x: SqlParam| x@) =~= seq![p@, q@, r@, s@, t@]);
    v
}

/// No values to bind.
pub(crate) fn none() -> (v: Vec<SqlParam>)
    ensures
        v@.map_values(|x: SqlParam| x@) == Seq::<SqlParamView>::empty(),
{
    let v: Vec<SqlParam> = Vec::new();
    assert(v@.map_values(|x: SqlParam| x@) =~= Seq::<SqlParamView>::empty());
    v
}

pub(crate) fn four(p: SqlParam, q: SqlParam, r: SqlParam, s: SqlParam) -> (v: Vec<SqlParam>)
    ensures
        v@.map_values(|x: SqlParam| x@) == seq![p@, q@, r@, s@],
{
    let mut v = Vec::new();
    v.push(p);
    v.push(q);
    v.push(r);
    v.push(s);
    assert(v@.map_values(|x: SqlParam| x@) =~= seq![p@, q@, r@, s@]);
    v
}

/// The text of the statement of `RoleStore::create`.
pub open spec fn role_store_create_sql() -> Seq<char> {
    "INSERT INTO roles (name, description) VALUES ($1, $2) RETURNING id, name, description, created_at"@
}

/// The statement of `RoleStore::create` inserts into `roles` one row in which each of its
/// columns holds its own bound value, in the order `name, description`.
pub proof fn lemma_role_store_create(binds: Seq<SqlParamView>)
    requires
        binds.len() == 2,
    ensures
        inserts(role_store_create_sql(), "roles"@, binds, row_of(seq!["name"@, "description"@], binds)),
{
    let columns = seq!["name"@, "description"@];
    reveal_strlit("INSERT INTO roles (name, description) VALUES ($1, $2) RETURNING id, name, description, created_at");
    reveal_strlit("INSERT INTO ");
    reveal_strlit(" (");
    reveal_strlit(", ");
    reveal_strlit(") VALUES (");
    reveal_strlit(")");
    reveal_strlit("roles");
    reveal_strlit("name");
    reveal_strlit("description");
    reveal_strlit(" RETURNING id, name, description, created_at");
    reveal_with_fuel(joined, 3);
    lemma_small_placeholders();
    assert(ordinals(2) =~= seq![1nat, 2nat]);
    assert(ordinals(2).map_values(|k: nat| placeholder(k)) =~= seq![seq!['$', '1'], seq!['$', '2']]);
    assert(role_store_create_sql() =~= insert_text("roles"@, columns, ordinals(2), " RETURNING id, name, description, created_at"@));
    assert(columns.no_duplicates()) by {
        assert forall|i: int, j: int| 0 <= i < columns.len() && 0 <= j < columns.len() && i != j
            implies columns[i] != columns[j] by {
            assert(columns[i].len() != columns[j].len());
        }
    }
    lemma_ordered_insert(columns, binds);
}

/// The text of the statement of `RoleStore::find_by_id`.
pub open spec fn role_store_find_by_id_sql() -> Seq<char> {
    "SELECT id, name, description, created_at FROM roles WHERE id = $1"@
}

/// The statement of `RoleStore::find_by_id` selects from `roles` exactly the rows whose
/// `id` hold the bound values, and returns each of their columns as stored.
pub proof fn lemma_role_store_find_by_id(binds: Seq<SqlParamView>)
    requires
        binds.len() == 1,
    ensures
        looks_up(role_store_find_by_id_sql(), "roles"@, binds, with_values(seq!["id"@], binds), seq!["id"@, "name"@, "description"@, "created_at"@]),
{
    let names = seq!["id"@, "name"@, "description"@, "created_at"@];
    let keys = seq!["id"@];
    reveal_strlit("SELECT id, name, description, created_at FROM roles WHERE id = $1");
    reveal_strlit("SELECT ");
    reveal_strlit(" FROM ");
    reveal_strlit(" WHERE ");
    reveal_strlit(" AND ");
    reveal_strlit(" = ");
    reveal_strlit(", ");
    reveal_strlit("roles");
    reveal_strlit("id");
    reveal_strlit("name");
    reveal_strlit("description");
    reveal_strlit("created_at");
    lemma_small_placeholders();
    let items = names.map_values(|n: Seq<char>| Item::Column(n));
    let conds = key_conds(keys);
    assert(names.no_duplicates()) by {
        assert forall|i: int, j: int| 0 <= i < names.len() && 0 <= j < names.len() && i != j
            implies names[i] != names[j] by {
            assert(names[i].len() != names[j].len());
        }
    }
    lemma_columns_read_back(items, names);
    reveal_with_fuel(joined, 5);
    assert(items.map_values(|i: Item| item_text(i)) =~= names);
    assert(conds =~= seq![Cond::Eq("id"@, 1)]);
    assert(conds.map_values(|c: Cond| cond_text(c)) =~= seq![cond_text(conds[0])]);
    assert(role_store_find_by_id_sql() =~= select_text(items, "roles"@, conds));
    lemma_key_conds(keys, binds);
}

/// The text of the statement of `RoleStore::delete_by_id`.
pub open spec fn role_store_delete_by_id_sql() -> Seq<char> {
    "DELETE FROM roles WHERE id = $1"@
}

/// The statement of `RoleStore::delete_by_id` deletes from `roles` exactly the rows whose
/// `id` hold the bound values.
pub proof fn lemma_role_store_delete_by_id(binds: Seq<SqlParamView>)
    requires
        binds.len() == 1,
    ensures
        deletes(role_store_delete_by_id_sql(), "roles"@, binds, with_values(seq!["id"@], binds)),
{
    let keys = seq!["id"@];
    reveal_strlit("DELETE FROM roles WHERE id = $1");
    reveal_strlit("DELETE FROM ");
    reveal_strlit(" WHERE ");
    reveal_strlit(" AND ");
    reveal_strlit(" = ");
    reveal_strlit("roles");
    reveal_strlit("id");
    lemma_small_placeholders();
    let conds = key_conds(keys);
    reveal_with_fuel(joined, 2);
    assert(conds =~= seq![Cond::Eq("id"@, 1)]);
    assert(conds.map_values(|c: Cond| cond_text(c)) =~= seq![cond_text(conds[0])]);
    assert(role_store_delete_by_id_sql() =~= delete_text("roles"@, conds));
    lemma_key_conds(keys, binds);
}

/// The text of the statement of `RolePermissionStore::add`.
pub open spec fn role_permission_store_add_sql() -> Seq<char> {
    "INSERT INTO role_permissions (role_id, permission, scope_kind, scope_id) VALUES ($1, $2, $3, $4) RETURNING id, role_id, permission, scope_kind, scope_id, created_at"@
}

/// The statement of `RolePermissionStore::add` inserts into `role_permissions` one row in which each of its
/// columns holds its own bound value, in the order `role_id, permission, scope_kind, scope_id`.
pub proof fn lemma_role_permission_store_add(binds: Seq<SqlParamView>)
    requires
        binds.len() == 4,
    ensures
        inserts(role_permission_store_add_sql(), "role_permissions"@, binds, row_of(seq!["role_id"@, "permission"@, "scope_kind"@, "scope_id"@], binds)),
{
    let columns = seq!["role_id"@, "permission"@, "scope_kind"@, "scope_id"@];
    reveal_strlit("INSERT INTO role_permissions (role_id, permission, scope_kind, scope_id) VALUES ($1, $2, $3, $4) RETURNING id, role_id, permission, scope_kind, scope_id, created_at");
    reveal_strlit("INSERT INTO ");
    reveal_strlit(" (");
    reveal_strlit(", ");
    reveal_strlit(") VALUES (");
    reveal_strlit(")");
    reveal_strlit("role_permissions");
    reveal_strlit("role_id");
    reveal_strlit("permission");
    reveal_strlit("scope_kind");
    reveal_strlit("scope_id");
    reveal_strlit(" RETURNING id, role_id, permission, scope_kind, scope_id, created_at");
    reveal_with_fuel(joined, 5);
    lemma_small_placeholders();
    assert(ordinals(4) =~= seq![1nat, 2nat, 3nat, 4nat]);
    assert(ordinals(4).map_values(|k: nat| placeholder(k)) =~= seq![seq!['$', '1'], seq!['$', '2'], seq!['$', '3'], seq!['$', '4']]);
    assert(role_permission_store_add_sql() =~= insert_text("role_permissions"@, columns, ordinals(4), " RETURNING id, role_id, permission, scope_kind, scope_id, created_at"@));
    assert(columns.no_duplicates()) by {
        assert forall|i: int, j: int| 0 <= i < columns.len() && 0 <= j < columns.len() && i != j
            implies columns[i] != columns[j] by {
            assert(columns[i].len() != columns[j].len() || columns[i][0] != columns[j][0]);
        }
    }
    lemma_ordered_insert(columns, binds);
}

/// The text of the statement of `RolePermissionStore::remove`.
pub open spec fn role_permission_store_remove_sql() -> Seq<char> {
    "DELETE FROM role_permissions WHERE id = $1"@
}

/// The statement of `RolePermissionStore::remove` deletes from `role_permissions` exactly the rows whose
/// `id` hold the bound values.
pub proof fn lemma_role_permission_store_remove(binds: Seq<SqlParamView>)
    requires
        binds.len() == 1,
    ensures
        deletes(role_permission_store_remove_sql(), "role_permissions"@, binds, with_values(seq!["id"@], binds)),
{
    let keys = seq!["id"@];
    reveal_strlit("DELETE FROM role_permissions WHERE id = $1");
    reveal_strlit("DELETE FROM ");
    reveal_strlit(" WHERE ");
    reveal_strlit(" AND ");
    reveal_strlit(" = ");
    reveal_strlit("role_permissions");
    reveal_strlit("id");
    lemma_small_placeholders();
    let conds = key_conds(keys);
    reveal_with_fuel(joined, 2);
    assert(conds =~= seq![Cond::Eq("id"@, 1)]);
    assert(conds.map_values(|c: Cond| cond_text(c)) =~= seq![cond_text(conds[0])]);
    assert(role_permission_store_remove_sql() =~= delete_text("role_permissions"@, conds));
    lemma_key_conds(keys, binds);
}

/// The text of the statement of `RolePermissionStore::list_for_role`.
pub open spec fn role_permission_store_list_for_role_sql() -> Seq<char> {
    "SELECT id, role_id, permission, scope_kind, scope_id, created_at FROM role_permissions WHERE role_id = $1"@
}

/// The statement of `RolePermissionStore::list_for_role` selects from `role_permissions` exactly the rows whose
/// `role_id` hold the bound values, and returns each of their columns as stored.
pub proof fn lemma_role_permission_store_list_for_role(binds: Seq<SqlParamView>)
    requires
        binds.len() == 1,
    ensures
        looks_up(role_permission_store_list_for_role_sql(), "role_permissions"@, binds, with_values(seq!["role_id"@], binds), seq!["id"@, "role_id"@, "permission"@, "scope_kind"@, "scope_id"@, "created_at"@]),
{
    let names = seq!["id"@, "role_id"@, "permission"@, "scope_kind"@, "scope_id"@, "created_at"@];
    let keys = seq!["role_id"@];
    reveal_strlit("SELECT id, role_id, permission, scope_kind, scope_id, created_at FROM role_permissions WHERE role_id = $1");
    reveal_strlit("SELECT ");
    reveal_strlit(" FROM ");
    reveal_strlit(" WHERE ");
    reveal_strlit(" AND ");
    reveal_strlit(" = ");
    reveal_strlit(", ");
    reveal_strlit("role_permissions");
    reveal_strlit("id");
    reveal_strlit("role_id");
    reveal_strlit("permission");
    reveal_strlit("scope_kind");
    reveal_strlit("scope_id");
    reveal_strlit("created_at");
    lemma_small_placeholders();
    let items = names.map_values(|n: Seq<char>| Item::Column(n));
    let conds = key_conds(keys);
    assert(names.no_duplicates()) by {
        assert forall|i: int, j: int| 0 <= i < names.len() && 0 <= j < names.len() && i != j
            implies names[i] != names[j] by {
            assert(names[i].len() != names[j].len() || names[i][0] != names[j][0]);
        }
    }
    lemma_columns_read_back(items, names);
    reveal_with_fuel(joined, 7);
    assert(items.map_values(|i: Item| item_text(i)) =~= names);
    assert(conds =~= seq![Cond::Eq("role_id"@, 1)]);
    assert(conds.map_values(|c: Cond| cond_text(c)) =~= seq![cond_text(conds[0])]);
    assert(role_permission_store_list_for_role_sql() =~= select_text(items, "role_permissions"@, conds));
    lemma_key_conds(keys, binds);
}

/// The text of the statement of `UserRoleStore::revoke`.
pub open spec fn user_role_store_revoke_sql() -> Seq<char> {
    "DELETE FROM user_roles WHERE id = $1"@
}

/// The statement of `UserRoleStore::revoke` deletes from `user_roles` exactly the rows whose
/// `id` hold the bound values.
pub proof fn lemma_user_role_store_revoke(binds: Seq<SqlParamView>)
    requires
        binds.len() == 1,
    ensures
        deletes(user_role_store_revoke_sql(), "user_roles"@, binds, with_values(seq!["id"@], binds)),
{
    let keys = seq!["id"@];
    reveal_strlit("DELETE FROM user_roles WHERE id = $1");
    reveal_strlit("DELETE FROM ");
    reveal_strlit(" WHERE ");
    reveal_strlit(" AND ");
    reveal_strlit(" = ");
    reveal_strlit("user_roles");
    reveal_strlit("id");
    lemma_small_placeholders();
    let conds = key_conds(keys);
    reveal_with_fuel(joined, 2);
    assert(conds =~= seq![Cond::Eq("id"@, 1)]);
    assert(conds.map_values(|c: Cond| cond_text(c)) =~= seq![cond_text(conds[0])]);
    assert(user_role_store_revoke_sql() =~= delete_text("user_roles"@, conds));
    lemma_key_conds(keys, binds);
}

/// The text of the statement of `UserRoleStore::revoke_by_user_and_role`.
pub open spec fn user_role_store_revoke_by_user_and_role_sql() -> Seq<char> {
    "DELETE FROM user_roles WHERE user_id = $1 AND role_id = $2"@
}

/// The statement of `UserRoleStore::revoke_by_user_and_role` deletes from `user_roles` exactly the rows whose
/// `user_id`, `role_id` hold the bound values.
pub proof fn lemma_user_role_store_revoke_by_user_and_role(binds: Seq<SqlParamView>)
    requires
        binds.len() == 2,
    ensures
        deletes(user_role_store_revoke_by_user_and_role_sql(), "user_roles"@, binds, with_values(seq!["user_id"@, "role_id"@], binds)),
{
    let keys = seq!["user_id"@, "role_id"@];
    reveal_strlit("DELETE FROM user_roles WHERE user_id = $1 AND role_id = $2");
    reveal_strlit("DELETE FROM ");
    reveal_strlit(" WHERE ");
    reveal_strlit(" AND ");
    reveal_strlit(" = ");
    reveal_strlit("user_roles");
    reveal_strlit("user_id");
    reveal_strlit("role_id");
    lemma_small_placeholders();
    let conds = key_conds(keys);
    reveal_with_fuel(joined, 3);
    assert(conds =~= seq![Cond::Eq("user_id"@, 1), Cond::Eq("role_id"@, 2)]);
    assert(conds.map_values(|c: Cond| cond_text(c)) =~= seq![cond_text(conds[0]), cond_text(conds[1])]);
    assert(user_role_store_revoke_by_user_and_role_sql() =~= delete_text("user_roles"@, conds));
    lemma_key_conds(keys, binds);
}

/// The text of the statement of `UserRoleStore::list_for_user`.
pub open spec fn user_role_store_list_for_user_sql() -> Seq<char> {
    "SELECT id, user_id, role_id, created_at FROM user_roles WHERE user_id = $1"@
}

/// The statement of `UserRoleStore::list_for_user` selects from `user_roles` exactly the rows whose
/// `user_id` hold the bound values, and returns each of their columns as stored.
pub proof fn lemma_user_role_store_list_for_user(binds: Seq<SqlParamView>)
    requires
        binds.len() == 1,
    ensures
        looks_up(user_role_store_list_for_user_sql(), "user_roles"@, binds, with_values(seq!["user_id"@], binds), seq!["id"@, "user_id"@, "role_id"@, "created_at"@]),
{
    let names = seq!["id"@, "user_id"@, "role_id"@, "created_at"@];
    let keys = seq!["user_id"@];
    reveal_strlit("SELECT id, user_id, role_id, created_at FROM user_roles WHERE user_id = $1");
    reveal_strlit("SELECT ");
    reveal_strlit(" FROM ");
    reveal_strlit(" WHERE ");
    reveal_strlit(" AND ");
    reveal_strlit(" = ");
    reveal_strlit(", ");
    reveal_strlit("user_roles");
    reveal_strlit("id");
    reveal_strlit("user_id");
    reveal_strlit("role_id");
    reveal_strlit("created_at");
    lemma_small_placeholders();
    let items = names.map_values(|n: Seq<char>| Item::Column(n));
    let conds = key_conds(keys);
    assert(names.no_duplicates()) by {
        assert forall|i: int, j: int| 0 <= i < names.len() && 0 <= j < names.len() && i != j
            implies names[i] != names[j] by {
            assert(names[i].len() != names[j].len() || names[i][0] != names[j][0]);
        }
    }
    lemma_columns_read_back(items, names);
    reveal_with_fuel(joined, 5);
    assert(items.map_values(|i: Item| item_text(i)) =~= names);
    assert(conds =~= seq![Cond::Eq("user_id"@, 1)]);
    assert(conds.map_values(|c: Cond| cond_text(c)) =~= seq![cond_text(conds[0])]);
    assert(user_role_store_list_for_user_sql() =~= select_text(items, "user_roles"@, conds));
    lemma_key_conds(keys, binds);
}

/// The text of the statement of `RoleStore::list_all`.
pub open spec fn role_store_list_all_sql() -> Seq<char> {
    "SELECT id, name, description, created_at FROM roles ORDER BY name"@
}

/// The statement of `RoleStore::list_all` returns every row of `roles` ordered by `name`,
/// with each of its columns as stored.
pub proof fn lemma_role_store_list_all()
    ensures
        lists(role_store_list_all_sql(), "roles"@, " ORDER BY name"@, seq!["id"@, "name"@, "description"@, "created_at"@]),
{
    let names = seq!["id"@, "name"@, "description"@, "created_at"@];
    reveal_strlit("SELECT id, name, description, created_at FROM roles ORDER BY name");
    reveal_strlit("SELECT ");
    reveal_strlit(" FROM ");
    reveal_strlit(", ");
    reveal_strlit("roles");
    reveal_strlit("id");
    reveal_strlit("name");
    reveal_strlit("description");
    reveal_strlit("created_at");
    reveal_strlit(" ORDER BY name");
    let items = names.map_values(|n: Seq<char>| Item::Column(n));
    assert(names.no_duplicates()) by {
        assert forall|i: int, j: int| 0 <= i < names.len() && 0 <= j < names.len() && i != j
            implies names[i] != names[j] by {
            assert(names[i].len() != names[j].len());
        }
    }
    lemma_columns_read_back(items, names);
    reveal_with_fuel(joined, 5);
    assert(items.map_values(|i: Item| item_text(i)) =~= names);
    assert(role_store_list_all_sql() =~= list_text(items, "roles"@, " ORDER BY name"@));
}

/// The store of roles.
pub struct RoleStore;

impl RoleStore {
    /// Inserts a role and returns the stored row.
    pub fn create(creation: &RoleCreation) -> (st: Statement)
        ensures
            st.sql@ == role_store_create_sql(),
            bound(st) == seq![
                SqlParamView::Text(creation.name@),
                SqlParamView::NullableText(
                    match creation.description {
                        Some(t) => Some(t@),
                        None => None,
                    },
                ),
            ],
            inserts(st.sql@, "roles"@, bound(st), row_of(seq!["name"@, "description"@], bound(st))),
    {
        let st = Statement {
            sql: "INSERT INTO roles (name, description) VALUES ($1, $2) RETURNING id, name, description, created_at",
            params: two(text_param(&creation.name), nullable_text_param(&creation.description)),
        };
        proof {
            lemma_role_store_create(bound(st));
        }
        st
    }

    /// Looks a role up by its id.
    pub fn find_by_id(id: &RoleId) -> (st: Statement)
        ensures
            st.sql@ == role_store_find_by_id_sql(),
            bound(st) == seq![SqlParamView::Uuid(id@)],
            looks_up(st.sql@, "roles"@, bound(st), with_values(seq!["id"@], bound(st)), seq!["id"@, "name"@, "description"@, "created_at"@]),
    {
        let st = Statement {
            sql: "SELECT id, name, description, created_at FROM roles WHERE id = $1",
            params: one(SqlParam::Uuid(id.into_inner())),
        };
        proof {
            lemma_role_store_find_by_id(bound(st));
        }
        st
    }

    /// Looks a role up by its name.
    pub fn find_by_name(name: &str) -> (st: Statement)
        ensures
            st.sql@ == role_by_name_sql(),
            bound(st) == seq![SqlParamView::Text(name@)],
            looks_up(st.sql@, "roles"@, bound(st), with_value("name"@, DbValue::Text(name@)), role_columns()),
    {
        proof {
            lemma_role_lookup_by_name(name@);
        }
        Statement {
            sql: "SELECT id, name, description, created_at FROM roles WHERE name = $1",
            params: one(SqlParam::Text(String::from_str(name))),
        }
    }

    /// Lists all roles, ordered by name.
    pub fn list_all() -> (st: Statement)
        ensures
            st.sql@ == role_store_list_all_sql(),
            bound(st) == Seq::<SqlParamView>::empty(),
            lists(st.sql@, "roles"@, " ORDER BY name"@, seq!["id"@, "name"@, "description"@, "created_at"@]),
    {
        let params: Vec<SqlParam> = Vec::new();
        assert(params@.map_values(|p: SqlParam| p@) =~= Seq::<SqlParamView>::empty());
        let st = Statement { sql: "SELECT id, name, description, created_at FROM roles ORDER BY name", params };
        proof {
            lemma_role_store_list_all();
        }
        st
    }

    /// Deletes a role.
    pub fn delete_by_id(id: &RoleId) -> (st: Statement)
        ensures
            st.sql@ == role_store_delete_by_id_sql(),
            bound(st) == seq![SqlParamView::Uuid(id@)],
            deletes(st.sql@, "roles"@, bound(st), with_values(seq!["id"@], bound(st))),
    {
        let st = Statement {
            sql: "DELETE FROM roles WHERE id = $1",
            params: one(SqlParam::Uuid(id.into_inner())),
        };
        proof {
            lemma_role_store_delete_by_id(bound(st));
        }
        st
    }
}

/// The store of the permissions attached to roles.
pub struct RolePermissionStore;

impl RolePermissionStore {
    /// Attaches a permission to a role and returns the stored row.
    pub fn add(creation: &RolePermissionCreation) -> (st: Statement)
        ensures
            st.sql@ == role_permission_store_add_sql(),
            bound(st) == seq![
                SqlParamView::Uuid(creation.role_id@),
                SqlParamView::Text(creation.permission@),
                SqlParamView::NullableText(
                    match creation.scope_kind {
                        Some(t) => Some(t@),
                        None => None,
                    },
                ),
                SqlParamView::NullableUuid(creation.scope_id),
            ],
            inserts(st.sql@, "role_permissions"@, bound(st), row_of(seq!["role_id"@, "permission"@, "scope_kind"@, "scope_id"@], bound(st))),
    {
        let st = Statement {
            sql: "INSERT INTO role_permissions (role_id, permission, scope_kind, scope_id) VALUES ($1, $2, $3, $4) RETURNING id, role_id, permission, scope_kind, scope_id, created_at",
            params: four(
                SqlParam::Uuid(creation.role_id.into_inner()),
                text_param(&creation.permission),
                nullable_text_param(&creation.scope_kind),
                SqlParam::NullableUuid(creation.scope_id),
            ),
        };
        proof {
            lemma_role_permission_store_add(bound(st));
        }
        st
    }

    /// Detaches a permission from its role.
    pub fn remove(id: &RolePermissionId) -> (st: Statement)
        ensures
            st.sql@ == role_permission_store_remove_sql(),
            bound(st) == seq![SqlParamView::Uuid(id@)],
            deletes(st.sql@, "role_permissions"@, bound(st), with_values(seq!["id"@], bound(st))),
    {
        let st = Statement {
            sql: "DELETE FROM role_permissions WHERE id = $1",
            params: one(SqlParam::Uuid(id.into_inner())),
        };
        proof {
            lemma_role_permission_store_remove(bound(st));
        }
        st
    }

    /// Lists all permissions directly attached to a role.
    pub fn list_for_role(role_id: &RoleId) -> (st: Statement)
        ensures
            st.sql@ == role_permission_store_list_for_role_sql(),
            bound(st) == seq![SqlParamView::Uuid(role_id@)],
            looks_up(st.sql@, "role_permissions"@, bound(st), with_values(seq!["role_id"@], bound(st)), seq!["id"@, "role_id"@, "permission"@, "scope_kind"@, "scope_id"@, "created_at"@]),
    {
        let st = Statement {
            sql: "SELECT id, role_id, permission, scope_kind, scope_id, created_at FROM role_permissions WHERE role_id = $1",
            params: one(SqlParam::Uuid(role_id.into_inner())),
        };
        proof {
            lemma_role_permission_store_list_for_role(bound(st));
        }
        st
    }
}

/// The columns that looking a role up returns.
pub open spec fn role_columns() -> Seq<Seq<char>> {
    seq!["id"@, "name"@, "description"@, "created_at"@]
}

/// Looking a role up by a name selects exactly the roles with that name, and returns each
/// of their columns as stored.
pub proof fn lemma_role_lookup_by_name(name: Seq<char>)
    ensures
        looks_up(
            role_by_name_sql(),
            "roles"@,
            seq![SqlParamView::Text(name)],
            with_value("name"@, bound_value(SqlParamView::Text(name))),
            role_columns(),
        ),
{
    let names = role_columns();
    reveal_strlit("SELECT id, name, description, created_at FROM roles WHERE name = $1");
    reveal_strlit("SELECT ");
    reveal_strlit(" FROM ");
    reveal_strlit(" WHERE ");
    reveal_strlit(" AND ");
    reveal_strlit(" = ");
    reveal_strlit(", ");
    reveal_strlit("roles");
    reveal_strlit("name");
    reveal_strlit("id");
    reveal_strlit("description");
    reveal_strlit("created_at");
    lemma_small_placeholders();
    let items = names.map_values(|n: Seq<char>| Item::Column(n));
    let conds = seq![Cond::Eq("name"@, 1)];
    assert(names.no_duplicates()) by {
        assert forall|i: int, j: int| 0 <= i < names.len() && 0 <= j < names.len() && i != j
            implies names[i] != names[j] by {
            assert(names[i].len() != names[j].len() || names[i][0] != names[j][0] || names[i][1]
                != names[j][1]);
        }
    }
    lemma_columns_read_back(items, names);
    reveal_with_fuel(joined, 10);
    assert(items.map_values(|i: Item| item_text(i)) =~= names);
    assert(conds.map_values(|c: Cond| cond_text(c)) =~= seq![cond_text(conds[0])]);
    assert(role_by_name_sql() =~= select_text(items, "roles"@, conds));
    lemma_single_condition("name"@, SqlParamView::Text(name));
}

/// The statement that inserts a role assignment unless the pair is already assigned.
pub open spec fn assign_sql() -> Seq<char> {
    "INSERT INTO user_roles (user_id, role_id) VALUES ($1, $2) ON CONFLICT (user_id, role_id) DO NOTHING RETURNING id, user_id, role_id, created_at"@
}

/// The values that assigning `creation` binds: the user, then the role.
pub open spec fn assign_binds(creation: UserRoleCreation) -> Seq<SqlParamView> {
    seq![SqlParamView::Uuid(creation.user_id@), SqlParamView::Uuid(creation.role_id@)]
}

/// The `(user_id, role_id)` pairs of `user_roles` after the insert of an assignment runs
/// with `binds` on a table that holds `pairs`. The table is keyed on
/// `(user_id, role_id)`, so the insert adds the pair where it is missing and does nothing
/// where it is there.
pub open spec fn pairs_after_assign(binds: Seq<SqlParamView>, pairs: Set<(u128, u128)>) -> Set<
    (u128, u128),
> {
    match (binds[0], binds[1]) {
        (SqlParamView::Uuid(u), SqlParamView::Uuid(r)) => pairs.insert((u, r)),
        _ => pairs,
    }
}

/// Assigning a role twice leaves one row for the pair: after the first assignment the
/// pair is there, and the second changes nothing.
pub proof fn lemma_assign_twice_keeps_one_row(creation: UserRoleCreation, pairs: Set<(u128, u128)>)
    ensures
        pairs_after_assign(assign_binds(creation), pairs).contains(
            (creation.user_id@, creation.role_id@),
        ),
        pairs_after_assign(assign_binds(creation), pairs_after_assign(assign_binds(creation), pairs))
            == pairs_after_assign(assign_binds(creation), pairs),
{
    let once = pairs_after_assign(assign_binds(creation), pairs);
    assert(once.insert((creation.user_id@, creation.role_id@)) =~= once);
}

/// The row that assigning `creation` stores in `user_roles`: the user under `user_id` and
/// the role under `role_id`.
pub open spec fn assignment_row(creation: UserRoleCreation) -> Map<Seq<char>, DbValue> {
    Map::<Seq<char>, DbValue>::empty().insert("user_id"@, DbValue::Uuid(creation.user_id@)).insert(
        "role_id"@,
        DbValue::Uuid(creation.role_id@),
    )
}

/// The insert of an assignment stores the pair it is given: the user under `user_id` and
/// the role under `role_id`.
pub proof fn lemma_assign_inserts_the_pair(creation: UserRoleCreation)
    ensures
        inserts(assign_sql(), "user_roles"@, assign_binds(creation), assignment_row(creation)),
{
    let columns = seq!["user_id"@, "role_id"@];
    let values = seq![1nat, 2nat];
    let rest = " ON CONFLICT (user_id, role_id) DO NOTHING RETURNING id, user_id, role_id, created_at"@;
    reveal_strlit("INSERT INTO user_roles (user_id, role_id) VALUES ($1, $2) ON CONFLICT (user_id, role_id) DO NOTHING RETURNING id, user_id, role_id, created_at");
    reveal_strlit(" ON CONFLICT (user_id, role_id) DO NOTHING RETURNING id, user_id, role_id, created_at");
    reveal_strlit("INSERT INTO ");
    reveal_strlit(" (");
    reveal_strlit(", ");
    reveal_strlit(") VALUES (");
    reveal_strlit(")");
    reveal_strlit("user_roles");
    reveal_strlit("user_id");
    reveal_strlit("role_id");
    reveal_with_fuel(joined, 3);
    lemma_small_placeholders();
    assert(values.map_values(|k: nat| placeholder(k)) =~= seq![seq!['$', '1'], seq!['$', '2']]);
    assert(assign_sql() =~= insert_text("user_roles"@, columns, values, rest));
    assert(columns.no_duplicates()) by {
        assert(columns[0][0] != columns[1][0]);
    }
    reveal_with_fuel(inserted_row, 3);
    assert(inserted_row(columns, values, assign_binds(creation)) =~= assignment_row(creation));
}

/// The assignments of `user` to `role`.
pub open spec fn assignment_of(user: u128, role: u128) -> spec_fn(Map<Seq<char>, DbValue>) -> bool {
    |row: Map<Seq<char>, DbValue>|
        holds(row, "user_id"@, DbValue::Uuid(user)) && holds(row, "role_id"@, DbValue::Uuid(role))
}

/// The columns that looking an assignment up returns.
pub open spec fn assignment_columns() -> Seq<Seq<char>> {
    seq!["id"@, "user_id"@, "role_id"@, "created_at"@]
}

/// Looking an assignment up by its user and role selects exactly the assignments of that
/// user to that role, and returns each of their columns as stored.
pub proof fn lemma_assignment_lookup(creation: UserRoleCreation)
    ensures
        looks_up(
            assignment_lookup_sql(),
            "user_roles"@,
            assign_binds(creation),
            assignment_of(creation.user_id@, creation.role_id@),
            assignment_columns(),
        ),
{
    let names = assignment_columns();
    reveal_strlit("SELECT id, user_id, role_id, created_at FROM user_roles WHERE user_id = $1 AND role_id = $2");
    reveal_strlit("SELECT ");
    reveal_strlit(" FROM ");
    reveal_strlit(" WHERE ");
    reveal_strlit(" AND ");
    reveal_strlit(" = ");
    reveal_strlit(", ");
    reveal_strlit("user_roles");
    reveal_strlit("id");
    reveal_strlit("user_id");
    reveal_strlit("role_id");
    reveal_strlit("created_at");
    lemma_small_placeholders();
    let items = names.map_values(|n: Seq<char>| Item::Column(n));
    let conds = seq![Cond::Eq("user_id"@, 1), Cond::Eq("role_id"@, 2)];
    assert(names.no_duplicates()) by {
        assert forall|i: int, j: int| 0 <= i < names.len() && 0 <= j < names.len() && i != j
            implies names[i] != names[j] by {
            assert(names[i].len() != names[j].len() || names[i][0] != names[j][0]);
        }
    }
    lemma_columns_read_back(items, names);
    reveal_with_fuel(joined, 5);
    assert(items.map_values(|i: Item| item_text(i)) =~= names);
    assert(conds.map_values(|c: Cond| cond_text(c)) =~= seq![cond_text(conds[0]), cond_text(conds[1])]);
    assert(assignment_lookup_sql() =~= select_text(items, "user_roles"@, conds));
    let binds = assign_binds(creation);
    let chosen = assignment_of(creation.user_id@, creation.role_id@);
    assert forall|row: Map<Seq<char>, DbValue>| #[trigger]
        all_hold(conds, binds, row) <==> chosen(row) by {
        if all_hold(conds, binds, row) {
            assert(cond_holds(conds[0], binds, row));
            assert(cond_holds(conds[1], binds, row));
        }
        if chosen(row) {
            assert forall|i: int| 0 <= i < conds.len() implies #[trigger] cond_holds(
                conds[i],
                binds,
                row,
            ) by {}
        }
    }
}

/// The store of role assignments.
pub struct UserRoleStore;

impl UserRoleStore {
    /// Assigns a role to a user. Assigning twice is no error: where the assignment already
    /// exists the insert returns no row, and `assign_existing` then fetches it.
    pub fn assign(creation: &UserRoleCreation) -> (st: Statement)
        ensures
            st.sql@ == assign_sql(),
            bound(st) == assign_binds(*creation),
            inserts(st.sql@, "user_roles"@, bound(st), assignment_row(*creation)),
    {
        proof {
            lemma_assign_inserts_the_pair(*creation);
        }
        Statement {
            sql: "INSERT INTO user_roles (user_id, role_id) VALUES ($1, $2) ON CONFLICT (user_id, role_id) DO NOTHING RETURNING id, user_id, role_id, created_at",
            params: two(
                SqlParam::Uuid(creation.user_id.into_inner()),
                SqlParam::Uuid(creation.role_id.into_inner()),
            ),
        }
    }

    /// Fetches an existing assignment, after `assign` returned no row.
    pub fn assign_existing(creation: &UserRoleCreation) -> (st: Statement)
        ensures
            st.sql@ == assignment_lookup_sql(),
            bound(st) == seq![
                SqlParamView::Uuid(creation.user_id@),
                SqlParamView::Uuid(creation.role_id@),
            ],
            looks_up(st.sql@, "user_roles"@, bound(st), assignment_of(creation.user_id@, creation.role_id@), assignment_columns()),
    {
        proof {
            lemma_assignment_lookup(*creation);
        }
        Statement {
            sql: "SELECT id, user_id, role_id, created_at FROM user_roles WHERE user_id = $1 AND role_id = $2",
            params: two(
                SqlParam::Uuid(creation.user_id.into_inner()),
                SqlParam::Uuid(creation.role_id.into_inner()),
            ),
        }
    }

    /// Revokes an assignment by its id.
    pub fn revoke(id: &UserRoleId) -> (st: Statement)
        ensures
            st.sql@ == user_role_store_revoke_sql(),
            bound(st) == seq![SqlParamView::Uuid(id@)],
            deletes(st.sql@, "user_roles"@, bound(st), with_values(seq!["id"@], bound(st))),
    {
        let st = Statement {
            sql: "DELETE FROM user_roles WHERE id = $1",
            params: one(SqlParam::Uuid(id.into_inner())),
        };
        proof {
            lemma_user_role_store_revoke(bound(st));
        }
        st
    }

    /// Revokes a role from a user.
    pub fn revoke_by_user_and_role(user_id: &UserId, role_id: &RoleId) -> (st: Statement)
        ensures
            st.sql@ == user_role_store_revoke_by_user_and_role_sql(),
            bound(st) == seq![SqlParamView::Uuid(user_id@), SqlParamView::Uuid(role_id@)],
            deletes(st.sql@, "user_roles"@, bound(st), with_values(seq!["user_id"@, "role_id"@], bound(st))),
    {
        let st = Statement {
            sql: "DELETE FROM user_roles WHERE user_id = $1 AND role_id = $2",
            params: two(
                SqlParam::Uuid(user_id.into_inner()),
                SqlParam::Uuid(role_id.into_inner()),
            ),
        };
        proof {
            lemma_user_role_store_revoke_by_user_and_role(bound(st));
        }
        st
    }

    /// Lists the role assignments of a user.
    pub fn list_for_user(user_id: &UserId) -> (st: Statement)
        ensures
            st.sql@ == user_role_store_list_for_user_sql(),
            bound(st) == seq![SqlParamView::Uuid(user_id@)],
            looks_up(st.sql@, "user_roles"@, bound(st), with_values(seq!["user_id"@], bound(st)), seq!["id"@, "user_id"@, "role_id"@, "created_at"@]),
    {
        let st = Statement {
            sql: "SELECT id, user_id, role_id, created_at FROM user_roles WHERE user_id = $1",
            params: one(SqlParam::Uuid(user_id.into_inner())),
        };
        proof {
            lemma_user_role_store_list_for_user(bound(st));
        }
        st
    }
}

} // verus!
