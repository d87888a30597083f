use cayopay_server::authorization::{
    check_answer, check_start, global_permission_names, grant_query, held_by_count,
    require_global, require_resource, require_shop, resource_scope, CheckMode, CheckStep,
};
use cayopay_server::error::AppError;
use cayopay_server::models::{ShopId, UserId};
use cayopay_server::permission::{GlobalPermission, Resource};

const SHOP: u128 = 0x0190_1234_5678_7abc_8def_0123_4567_89ab;

fn denial(r: &Result<(), AppError>) -> (String, String) {
    match r {
        Err(AppError::PermissionDenied { permission, scope }) => (permission.clone(), scope.clone()),
        _ => panic!("expected a permission denial"),
    }
}

/// Runs a check to its end, answering from `held`; returns the outcome and the indices asked.
fn run(mode: CheckMode, names: &[&str], scope: &str, held: &[bool]) -> (Result<(), AppError>, Vec<usize>) {
    let mut asked = Vec::new();
    let mut step = check_start(mode, names, scope);
    loop {
        match step {
            CheckStep::Ask(i) => {
                asked.push(i);
                step = check_answer(mode, names, scope, i, held[i]);
            }
            CheckStep::Allow => return (Ok(()), asked),
            CheckStep::Deny(e) => return (Err(e), asked),
        }
    }
}

#[test]
fn grant_query_for_global_and_wildcard_contexts_matches_null_resource_only() {
    let user = UserId::from_uuid(7);
    let q = grant_query(user, "user.read", &Resource::Global);
    assert_eq!(q.user_id, 7);
    assert_eq!(q.permission, "user.read");
    assert_eq!(q.resource_type, "global");
    assert_eq!(q.resource_id, None);
    assert!(q.sql.ends_with("AND resource_id IS NULL"));
    let q = grant_query(user, "shop.x", &Resource::Shop(None));
    assert_eq!(q.resource_type, "shop");
    assert_eq!(q.resource_id, None);
    assert!(q.sql.ends_with("AND resource_id IS NULL"));
}

#[test]
fn grant_query_for_a_specific_shop_also_accepts_wildcard_grants() {
    let q = grant_query(UserId::from_uuid(7), "shop.x", &Resource::Shop(Some(ShopId::from_uuid(SHOP))));
    assert_eq!(q.resource_type, "shop");
    assert_eq!(q.resource_id, Some(SHOP));
    assert!(q.sql.ends_with("AND (resource_id = $4 OR resource_id IS NULL)"));
}

#[test]
fn a_permission_is_held_when_some_grant_counts() {
    assert!(!held_by_count(0));
    assert!(held_by_count(1));
    assert!(held_by_count(3));
}

#[test]
fn denial_scopes() {
    assert_eq!(resource_scope(&Resource::Global), "global");
    assert_eq!(resource_scope(&Resource::Shop(None)), "shop:any");
    assert_eq!(
        resource_scope(&Resource::Shop(Some(ShopId::from_uuid(SHOP)))),
        "shop:01901234-5678-7abc-8def-0123456789ab"
    );
    assert!(require_global("user.read", true).is_ok());
    assert_eq!(
        denial(&require_global("user.read", false)),
        ("user.read".to_string(), "global".to_string())
    );
    assert_eq!(
        denial(&require_resource("x", &Resource::Shop(None), false)),
        ("x".to_string(), "shop:any".to_string())
    );
    assert_eq!(
        denial(&require_shop("x", ShopId::from_uuid(SHOP), false)),
        ("x".to_string(), "shop:01901234-5678-7abc-8def-0123456789ab".to_string())
    );
    assert!(require_shop("x", ShopId::from_uuid(SHOP), true).is_ok());
}

#[test]
fn require_any_succeeds_at_the_first_held_permission() {
    let names = ["user.read", "user.remove", "guest.read"];
    let (r, asked) = run(CheckMode::Any, &names, "global", &[false, true, true]);
    assert!(r.is_ok());
    assert_eq!(asked, vec![0, 1]);
}

#[test]
fn require_any_denies_only_when_none_is_held() {
    let names = ["user.read", "user.remove"];
    let (r, asked) = run(CheckMode::Any, &names, "global", &[false, false]);
    assert_eq!(asked, vec![0, 1]);
    assert_eq!(
        denial(&r),
        ("any of [user.read, user.remove]".to_string(), "global".to_string())
    );
    let (r, asked) = run(CheckMode::Any, &[], "shop:any", &[]);
    assert!(asked.is_empty());
    assert_eq!(denial(&r), ("any of []".to_string(), "shop:any".to_string()));
}

#[test]
fn require_all_stops_at_the_first_missing_permission() {
    let names = ["user.read", "user.remove", "guest.read"];
    let (r, asked) = run(CheckMode::All, &names, "global", &[true, false, false]);
    assert_eq!(asked, vec![0, 1]);
    assert_eq!(denial(&r), ("user.remove".to_string(), "global".to_string()));
    let (r, asked) = run(CheckMode::All, &names, "global", &[true, true, true]);
    assert!(r.is_ok());
    assert_eq!(asked, vec![0, 1, 2]);
    let (r, asked) = run(CheckMode::All, &[], "global", &[]);
    assert!(r.is_ok());
    assert!(asked.is_empty());
}

#[test]
fn permission_names_follow_the_catalogue_strings() {
    let names = global_permission_names(&[GlobalPermission::SendInvite, GlobalPermission::ReadGuest]);
    assert_eq!(names, vec!["invite.send", "guest.read"]);
}
