//! Permission checks against directly granted permissions.
//!
//! Grants live in the `granted_permissions` table:
//! `(user_id, resource_type, resource_id, permission)`.
//! - `resource_type = 'global'`, `resource_id IS NULL`: a system-wide permission.
//! - `resource_type = 'shop'`, `resource_id IS NULL`: a permission on any shop.
//! - `resource_type = 'shop'`, `resource_id = <uuid>`: a permission on that shop.
//!
//! There is no role inheritance; each row is a direct grant. The library plans the
//! queries and takes every decision; the caller runs the queries.
use crate::error::{AppError, AppErrorView};
use crate::id::uuid_text;
use crate::models::{ShopId, UserId};
use crate::permission::{
    global_permission_name, resource_id_value, resource_type_name, GlobalPermission, Resource,
};
use crate::sql::{
    all_hold, cond_holds, cond_text, holds, item_text, lemma_small_placeholders, looks_up,
    placeholder_value, select_text, Cond, DbValue, Item,
};
use crate::stores::SqlParamView;
use crate::text::{join_strs, joined, str_views};
use vstd::prelude::*;

verus! {

/// Counts the grants of a permission with no resource id (a global grant, or a wildcard
/// grant on every resource of the type).
pub open spec fn exact_grant_sql() -> Seq<char> {
    "SELECT COUNT(*) FROM granted_permissions WHERE user_id = $1 AND permission = $2 AND resource_type = $3 AND resource_id IS NULL"@
}

/// Counts the grants of a permission on one resource: those naming it, and wildcard grants.
pub open spec fn resource_grant_sql() -> Seq<char> {
    "SELECT COUNT(*) FROM granted_permissions WHERE user_id = $1 AND permission = $2 AND resource_type = $3 AND (resource_id = $4 OR resource_id IS NULL)"@
}

/// The statement that counts the grants satisfying a check in the context `resource`.
pub open spec fn grant_check_sql(resource: Resource) -> Seq<char> {
    if resource_id_value(resource) is None {
        exact_grant_sql()
    } else {
        resource_grant_sql()
    }
}

/// Whether the grant-counting statement `sql`, with `$1` to `$4` bound to `user_id`,
/// `permission`, `resource_type` and `resource_id`, counts the `granted_permissions` row
/// `grant`, given as (user id, permission, resource type, resource id).
pub open spec fn grant_counted(
    sql: Seq<char>,
    user_id: u128,
    permission: Seq<char>,
    resource_type: Seq<char>,
    resource_id: Option<u128>,
    grant: (u128, Seq<char>, Seq<char>, Option<u128>),
) -> bool {
    &&& grant.0 == user_id
    &&& grant.1 == permission
    &&& grant.2 == resource_type
    &&& {
        ||| sql == exact_grant_sql() && grant.3 is None
        ||| sql == resource_grant_sql() && (grant.3 is None || grant.3 == resource_id)
    }
}

/// Whether the grants `grants` give `user_id` the permission in the context `resource`:
/// the check's statement counts at least one of them.
pub open spec fn grants_permission(
    grants: Seq<(u128, Seq<char>, Seq<char>, Option<u128>)>,
    user_id: u128,
    permission: Seq<char>,
    resource: Resource,
) -> bool {
    exists|i: int|
        0 <= i < grants.len() && #[trigger] grant_counted(
            grant_check_sql(resource),
            user_id,
            permission,
            resource_type_name(resource),
            resource_id_value(resource),
            grants[i],
        )
}

/// The values bound to the grant-counting statement of a check: the user (`$1`), the
/// permission (`$2`), the context's resource type (`$3`) and, for one resource, its id
/// (`$4`).
pub open spec fn grant_binds(user_id: u128, permission: Seq<char>, resource: Resource) -> Seq<
    SqlParamView,
> {
    let base = seq![
        SqlParamView::Uuid(user_id),
        SqlParamView::Text(permission),
        SqlParamView::Text(resource_type_name(resource)),
    ];
    match resource_id_value(resource) {
        Some(id) => base.push(SqlParamView::Uuid(id)),
        None => base,
    }
}

/// The `granted_permissions` rows that satisfy a check of `permission` by `user_id` in the
/// context `resource`: the user's grants of that permission on that resource type, with
/// no resource id (for every resource), or, for one resource, with its id.
pub open spec fn satisfying_grant(user_id: u128, permission: Seq<char>, resource: Resource) -> spec_fn(
    Map<Seq<char>, DbValue>,
) -> bool {
    |row: Map<Seq<char>, DbValue>|
        holds(row, "user_id"@, DbValue::Uuid(user_id)) && holds(
            row,
            "permission"@,
            DbValue::Text(permission),
        ) && holds(row, "resource_type"@, DbValue::Text(resource_type_name(resource))) && match resource_id_value(resource) {
            None => holds(row, "resource_id"@, DbValue::Null),
            Some(id) => holds(row, "resource_id"@, DbValue::Null) || holds(
                row,
                "resource_id"@,
                DbValue::Uuid(id),
            ),
        }
}

/// The statement of a permission check, run with its binds, counts exactly the grants that
/// satisfy the check: the user's grants of the permission on the context's resource type,
/// with no resource id or, for one resource, its id.
pub proof fn lemma_grant_statement_counts_satisfying_grants(
    user_id: u128,
    permission: Seq<char>,
    resource: Resource,
)
    ensures
        looks_up(
            grant_check_sql(resource),
            "granted_permissions"@,
            grant_binds(user_id, permission, resource),
            satisfying_grant(user_id, permission, resource),
            Seq::<Seq<char>>::empty(),
        ),
{
    reveal_strlit("SELECT COUNT(*) FROM granted_permissions WHERE user_id = $1 AND permission = $2 AND resource_type = $3 AND resource_id IS NULL");
    reveal_strlit("SELECT COUNT(*) FROM granted_permissions WHERE user_id = $1 AND permission = $2 AND resource_type = $3 AND (resource_id = $4 OR resource_id IS NULL)");
    reveal_strlit("SELECT ");
    reveal_strlit(" FROM ");
    reveal_strlit(" WHERE ");
    reveal_strlit(" AND ");
    reveal_strlit(" = ");
    reveal_strlit(" IS NULL");
    reveal_strlit(" IS NULL)");
    reveal_strlit(" OR ");
    reveal_strlit("(");
    reveal_strlit(", ");
    reveal_strlit("COUNT(*)");
    reveal_strlit("granted_permissions");
    reveal_strlit("user_id");
    reveal_strlit("permission");
    reveal_strlit("resource_type");
    reveal_strlit("resource_id");
    reveal_strlit("global");
    reveal_strlit("shop");
    lemma_small_placeholders();
    reveal_with_fuel(joined, 5);
    let items = seq![Item::Column("COUNT(*)"@)];
    let last = match resource_id_value(resource) {
        None => Cond::IsNull("resource_id"@),
        Some(_) => Cond::EqOrNull("resource_id"@, 4),
    };
    let conds = seq![
        Cond::Eq("user_id"@, 1),
        Cond::Eq("permission"@, 2),
        Cond::Eq("resource_type"@, 3),
        last,
    ];
    let binds = grant_binds(user_id, permission, resource);
    let chosen = satisfying_grant(user_id, permission, resource);
    assert(items.map_values(|i: Item| item_text(i)) =~= seq!["COUNT(*)"@]);
    assert(conds.map_values(|c: Cond| cond_text(c)) =~= seq![
        cond_text(conds[0]),
        cond_text(conds[1]),
        cond_text(conds[2]),
        cond_text(conds[3]),
    ]);
    assert(grant_check_sql(resource) =~= select_text(items, "granted_permissions"@, conds));
    assert forall|row: Map<Seq<char>, DbValue>| #[trigger]
        all_hold(conds, binds, row) <==> chosen(row) by {
        if all_hold(conds, binds, row) {
            assert(cond_holds(conds[0], binds, row));
            assert(cond_holds(conds[1], binds, row));
            assert(cond_holds(conds[2], binds, row));
            assert(cond_holds(conds[3], binds, row));
        }
        if chosen(row) {
            assert forall|i: int| 0 <= i < conds.len() implies #[trigger] cond_holds(
                conds[i],
                binds,
                row,
            ) by {
                if i == 3 {
                    match resource_id_value(resource) {
                        None => {},
                        Some(id) => {
                            assert(placeholder_value(binds, 4) == Some(DbValue::Uuid(id)));
                        },
                    }
                }
            }
        }
    }
}

/// A wildcard shop grant covers every shop: whoever holds a permission on shops in
/// general holds it on each specific shop.
pub proof fn lemma_wildcard_covers_every_shop(
    grants: Seq<(u128, Seq<char>, Seq<char>, Option<u128>)>,
    user_id: u128,
    permission: Seq<char>,
    shop: ShopId,
)
    requires
        grants_permission(grants, user_id, permission, Resource::Shop(None)),
    ensures
        grants_permission(grants, user_id, permission, Resource::Shop(Some(shop))),
{
    let wildcard = Resource::Shop(None);
    let specific = Resource::Shop(Some(shop));
    let i = choose|i: int|
        0 <= i < grants.len() && #[trigger] grant_counted(
            grant_check_sql(wildcard),
            user_id,
            permission,
            resource_type_name(wildcard),
            resource_id_value(wildcard),
            grants[i],
        );
    assert(grant_counted(
        grant_check_sql(specific),
        user_id,
        permission,
        resource_type_name(specific),
        resource_id_value(specific),
        grants[i],
    ));
}

/// The query that counts the grants satisfying a permission check, with its parameters
/// `$1` to `$4` (`$4` only where `resource_id` is `Some`).
pub struct GrantQuery {
    pub sql: &'static str,
    pub user_id: u128,
    pub permission: String,
    pub resource_type: &'static str,
    pub resource_id: Option<u128>,
}

/// The query that decides whether `user_id` holds `permission` in the context `resource`.
/// For a specific shop, a wildcard shop grant also satisfies the check.
pub fn grant_query(user_id: UserId, permission: &str, resource: &Resource) -> (q: GrantQuery)
    ensures
        q.user_id == user_id@,
        q.permission@ == permission@,
        q.resource_type@ == resource_type_name(*resource),
        q.resource_id == resource_id_value(*resource),
        q.sql@ == grant_check_sql(*resource),
        looks_up(
            q.sql@,
            "granted_permissions"@,
            grant_binds(user_id@, permission@, *resource),
            satisfying_grant(user_id@, permission@, *resource),
            Seq::<Seq<char>>::empty(),
        ),
{
    proof {
        lemma_grant_statement_counts_satisfying_grants(user_id@, permission@, *resource);
    }
    let resource_type = resource.resource_type();
    let resource_id = resource.resource_id();
    let sql = match resource_id {
        None => "SELECT COUNT(*) FROM granted_permissions WHERE user_id = $1 AND permission = $2 AND resource_type = $3 AND resource_id IS NULL",
        Some(_) => "SELECT COUNT(*) FROM granted_permissions WHERE user_id = $1 AND permission = $2 AND resource_type = $3 AND (resource_id = $4 OR resource_id IS NULL)",
    };
    GrantQuery {
        sql,
        user_id: user_id.into_inner(),
        permission: String::from_str(permission),
        resource_type,
        resource_id,
    }
}

/// Whether the number of satisfying grants that the query counted grants the permission.
pub fn held_by_count(count: i64) -> (held: bool)
    ensures
        held == (count > 0),
{
    count > 0
}

/// The scope text of a resource context, as reported in a denial.
pub open spec fn scope_text(resource: Resource) -> Seq<char> {
    match resource {
        Resource::Global => "global"@,
        Resource::Shop(None) => "shop:any"@,
        Resource::Shop(Some(id)) => "shop:"@ + uuid_text(id@),
    }
}

/// The scope text of a specific shop: `shop:<uuid>`.
pub fn shop_scope(shop_id: ShopId) -> (scope: String)
    ensures
        scope@ == scope_text(Resource::Shop(Some(shop_id))),
{
    let id = shop_id.to_text();
    String::from_str("shop:").concat(id.as_str())
}

/// The scope text of a resource context.
pub fn resource_scope(resource: &Resource) -> (scope: String)
    ensures
        scope@ == scope_text(*resource),
{
    match resource {
        Resource::Global => String::from_str("global"),
        Resource::Shop(None) => String::from_str("shop:any"),
        Resource::Shop(Some(id)) => shop_scope(*id),
    }
}

/// The denial of `permission` in the context `resource`.
pub fn permission_denied(permission: &str, resource: &Resource) -> (e: AppError)
    ensures
        e@ == (AppErrorView::PermissionDenied {
            permission: permission@,
            scope: scope_text(*resource),
        }),
{
    AppError::PermissionDenied {
        permission: String::from_str(permission),
        scope: resource_scope(resource),
    }
}

/// The outcome of a permission check that found the permission held or not:
/// the denial names the permission and the scope of `resource`.
pub fn require_resource(permission: &str, resource: &Resource, held: bool) -> (r: Result<(), AppError>)
    ensures
        match r {
            Ok(_) => held,
            Err(e) => !held && e@ == (AppErrorView::PermissionDenied {
                permission: permission@,
                scope: scope_text(*resource),
            }),
        },
{
    if held {
        Ok(())
    } else {
        Err(permission_denied(permission, resource))
    }
}

/// The outcome of a global permission check: a denial is scoped `global`.
pub fn require_global(permission: &str, held: bool) -> (r: Result<(), AppError>)
    ensures
        match r {
            Ok(_) => held,
            Err(e) => !held && e@ == (AppErrorView::PermissionDenied {
                permission: permission@,
                scope: "global"@,
            }),
        },
{
    require_resource(permission, &Resource::Global, held)
}

/// The outcome of a permission check on a specific shop: a denial is scoped `shop:<uuid>`.
pub fn require_shop(permission: &str, shop_id: ShopId, held: bool) -> (r: Result<(), AppError>)
    ensures
        match r {
            Ok(_) => held,
            Err(e) => !held && e@ == (AppErrorView::PermissionDenied {
                permission: permission@,
                scope: scope_text(Resource::Shop(Some(shop_id))),
            }),
        },
{
    require_resource(permission, &Resource::Shop(Some(shop_id)), held)
}

/// How a list of permissions is checked: `Any` is satisfied by one held permission,
/// `All` needs every one of them.
#[derive(Clone, Copy, PartialEq, Eq, Structural)]
pub enum CheckMode {
    Any,
    All,
}

/// What a permission check does next: ask whether the permission at an index of the list
/// is held, or finish with the outcome.
pub enum CheckStep {
    Ask(usize),
    Allow,
    Deny(AppError),
}

/// The mathematical value of a `CheckStep`.
pub enum CheckStepView {
    Ask(nat),
    Allow,
    Deny(AppErrorView),
}

impl View for CheckStep {
    type V = CheckStepView;

    open spec fn view(&self) -> CheckStepView {
        match self {
            CheckStep::Ask(i) => CheckStepView::Ask(*i as nat),
            CheckStep::Allow => CheckStepView::Allow,
            CheckStep::Deny(e) => CheckStepView::Deny(e@),
        }
    }
}

/// The denial of an `Any` check: `any of [p1, p2, ...]` within the scope.
pub open spec fn any_denial(names: Seq<Seq<char>>, scope: Seq<char>) -> AppErrorView {
    AppErrorView::PermissionDenied {
        permission: "any of ["@ + joined(names, ", "@) + "]"@,
        scope: scope,
    }
}

/// The denial of one missing permission within the scope.
pub open spec fn single_denial(name: Seq<char>, scope: Seq<char>) -> AppErrorView {
    AppErrorView::PermissionDenied { permission: name, scope: scope }
}

/// The first step of a check of `names`.
pub open spec fn first_step(mode: CheckMode, names: Seq<Seq<char>>, scope: Seq<char>) -> CheckStepView {
    if names.len() == 0 {
        match mode {
            CheckMode::Any => CheckStepView::Deny(any_denial(names, scope)),
            CheckMode::All => CheckStepView::Allow,
        }
    } else {
        CheckStepView::Ask(0)
    }
}

/// The step after learning whether the permission at `index` is held.
pub open spec fn step_after(
    mode: CheckMode,
    names: Seq<Seq<char>>,
    scope: Seq<char>,
    index: int,
    held: bool,
) -> CheckStepView {
    match mode {
        CheckMode::Any => if held {
            CheckStepView::Allow
        } else if index < names.len() - 1 {
            CheckStepView::Ask((index + 1) as nat)
        } else {
            CheckStepView::Deny(any_denial(names, scope))
        },
        CheckMode::All => if !held {
            CheckStepView::Deny(single_denial(names[index], scope))
        } else if index < names.len() - 1 {
            CheckStepView::Ask((index + 1) as nat)
        } else {
            CheckStepView::Allow
        },
    }
}

fn any_denial_error(names: &[&str], scope: &str) -> (e: AppError)
    ensures
        e@ == any_denial(str_views(names@), scope@),
{
    let list = join_strs(names, ", ");
    AppError::PermissionDenied {
        permission: String::from_str("any of [").concat(list.as_str()).concat("]"),
        scope: String::from_str(scope),
    }
}

/// Starts a check of the permissions `names` within `scope`. An `Any` check of no
/// permission is denied at once; an `All` check of no permission is allowed at once.
pub fn check_start(mode: CheckMode, names: &[&str], scope: &str) -> (step: CheckStep)
    ensures
        step@ == first_step(mode, str_views(names@), scope@),
{
    if names.len() == 0 {
        match mode {
            CheckMode::Any => CheckStep::Deny(any_denial_error(names, scope)),
            CheckMode::All => CheckStep::Allow,
        }
    } else {
        CheckStep::Ask(0)
    }
}

/// Continues a check once it is known whether the permission at `index` is held.
/// `Any` stops at the first held permission, `All` at the first missing one.
pub fn check_answer(mode: CheckMode, names: &[&str], scope: &str, index: usize, held: bool) -> (step:
    CheckStep)
    requires
        index < names@.len(),
    ensures
        step@ == step_after(mode, str_views(names@), scope@, index as int, held),
{
    match mode {
        CheckMode::Any => {
            if held {
                CheckStep::Allow
            } else if index < names.len() - 1 {
                CheckStep::Ask(index + 1)
            } else {
                CheckStep::Deny(any_denial_error(names, scope))
            }
        },
        CheckMode::All => {
            if !held {
                CheckStep::Deny(
                    AppError::PermissionDenied {
                        permission: String::from_str(names[index]),
                        scope: String::from_str(scope),
                    },
                )
            } else if index < names.len() - 1 {
                CheckStep::Ask(index + 1)
            } else {
                CheckStep::Allow
            }
        },
    }
}

/// The permission strings of a list of global permissions.
pub fn global_permission_names(permissions: &[GlobalPermission]) -> (names: Vec<&'static str>)
    ensures
        names@.len() == permissions@.len(),
        forall|i: int|
            0 <= i < names@.len() ==> (#[trigger] names@[i])@ == global_permission_name(
                permissions@[i],
            ),
{
    let mut names: Vec<&'static str> = Vec::new();
    let mut i: usize = 0;
    while i < permissions.len()
        invariant
            i <= permissions@.len(),
            names@.len() == i,
            forall|j: int|
                0 <= j < i ==> (#[trigger] names@[j])@ == global_permission_name(permissions@[j]),
        decreases permissions@.len() - i,
    {
        names.push(permissions[i].as_str());
        i = i + 1;
    }
    names
}

/// The outcome of a check of `names` from `index` on, where `answers[i]` tells whether
/// the permission at `i` is held: each step is taken as `step_after` says.
pub open spec fn run_from(
    mode: CheckMode,
    names: Seq<Seq<char>>,
    scope: Seq<char>,
    answers: Seq<bool>,
    index: nat,
) -> CheckStepView
    decreases names.len() - index,
{
    if index >= names.len() {
        first_step(mode, names, scope)
    } else {
        match step_after(mode, names, scope, index as int, answers[index as int]) {
            CheckStepView::Ask(_) => run_from(mode, names, scope, answers, index + 1),
            done => done,
        }
    }
}

/// The outcome of a whole check of `names` with the given answers.
pub open spec fn run_check(
    mode: CheckMode,
    names: Seq<Seq<char>>,
    scope: Seq<char>,
    answers: Seq<bool>,
) -> CheckStepView {
    if names.len() == 0 {
        first_step(mode, names, scope)
    } else {
        run_from(mode, names, scope, answers, 0)
    }
}

proof fn lemma_any_from(names: Seq<Seq<char>>, scope: Seq<char>, answers: Seq<bool>, index: nat)
    requires
        answers.len() == names.len(),
        index < names.len(),
    ensures
        run_from(CheckMode::Any, names, scope, answers, index) == (if exists|j: int|
            index <= j < names.len() && #[trigger] answers[j] {
            CheckStepView::Allow
        } else {
            CheckStepView::Deny(any_denial(names, scope))
        }),
    decreases names.len() - index,
{
    if !answers[index as int] && index + 1 < names.len() {
        lemma_any_from(names, scope, answers, index + 1);
        if exists|j: int| index + 1 <= j < names.len() && #[trigger] answers[j] {
        } else {
            assert forall|j: int| index <= j < names.len() implies !#[trigger] answers[j] by {
                if j != index {
                }
            }
        }
    } else if answers[index as int] {
        assert(index <= index as int && answers[index as int]);
    } else {
        assert forall|j: int| index <= j < names.len() implies !#[trigger] answers[j] by {
        }
    }
}

proof fn lemma_all_from(names: Seq<Seq<char>>, scope: Seq<char>, answers: Seq<bool>, index: nat)
    requires
        answers.len() == names.len(),
        index < names.len(),
    ensures
        (forall|j: int| index <= j < names.len() ==> #[trigger] answers[j]) ==> run_from(
            CheckMode::All,
            names,
            scope,
            answers,
            index,
        ) == CheckStepView::Allow,
        !(forall|j: int| index <= j < names.len() ==> #[trigger] answers[j]) ==> exists|k: int|
            index <= k < names.len() && !answers[k] && (forall|j: int|
                index <= j < k ==> #[trigger] answers[j]) && run_from(
                CheckMode::All,
                names,
                scope,
                answers,
                index,
            ) == CheckStepView::Deny(single_denial(names[k], scope)),
    decreases names.len() - index,
{
    if answers[index as int] && index + 1 < names.len() {
        lemma_all_from(names, scope, answers, index + 1);
        if !(forall|j: int| index <= j < names.len() ==> #[trigger] answers[j]) {
            if forall|j: int| index + 1 <= j < names.len() ==> #[trigger] answers[j] {
                assert forall|j: int| index <= j < names.len() implies #[trigger] answers[j] by {
                    if j != index {
                    }
                }
            }
            let k = choose|k: int|
                index + 1 <= k < names.len() && !answers[k] && (forall|j: int|
                    index + 1 <= j < k ==> #[trigger] answers[j]) && run_from(
                    CheckMode::All,
                    names,
                    scope,
                    answers,
                    index + 1,
                ) == CheckStepView::Deny(single_denial(names[k], scope));
            assert forall|j: int| index <= j < k implies #[trigger] answers[j] by {
                if j != index {
                }
            }
        }
    } else if !answers[index as int] {
        assert forall|j: int| index <= j < index implies #[trigger] answers[j] by {
        }
    } else {
        if !(forall|j: int| index <= j < names.len() ==> #[trigger] answers[j]) {
            let j0 = choose|j: int| index <= j < names.len() && !#[trigger] answers[j];
            assert(j0 == index);
        }
    }
}

/// An `Any` check is allowed exactly when at least one of the permissions is held;
/// otherwise it is denied with `any of [...]`, listing every permission in order.
pub proof fn lemma_require_any(names: Seq<Seq<char>>, scope: Seq<char>, answers: Seq<bool>)
    requires
        answers.len() == names.len(),
    ensures
        (run_check(CheckMode::Any, names, scope, answers) == CheckStepView::Allow) <==> exists|
            i: int,
        | 0 <= i < names.len() && #[trigger] answers[i],
        run_check(CheckMode::Any, names, scope, answers) != CheckStepView::Allow ==> run_check(
            CheckMode::Any,
            names,
            scope,
            answers,
        ) == CheckStepView::Deny(any_denial(names, scope)),
{
    if names.len() > 0 {
        lemma_any_from(names, scope, answers, 0);
    }
}

/// An `All` check is allowed exactly when every permission is held; otherwise it is
/// denied naming the first permission that is missing.
pub proof fn lemma_require_all(names: Seq<Seq<char>>, scope: Seq<char>, answers: Seq<bool>)
    requires
        answers.len() == names.len(),
    ensures
        (run_check(CheckMode::All, names, scope, answers) == CheckStepView::Allow) <==> forall|
            i: int,
        | 0 <= i < names.len() ==> #[trigger] answers[i],
        run_check(CheckMode::All, names, scope, answers) != CheckStepView::Allow ==> exists|
            k: int,
        |
            0 <= k < names.len() && !answers[k] && (forall|j: int| 0 <= j < k ==> #[trigger] answers[j])
                && run_check(CheckMode::All, names, scope, answers) == CheckStepView::Deny(
                single_denial(names[k], scope),
            ),
{
    if names.len() > 0 {
        lemma_all_from(names, scope, answers, 0);
    }
}

} // verus!
