use cayopay_server::actors::list_actors;
use cayopay_server::models::{
    ActorId, RoleCreation, RoleId, RolePermissionCreation, UserId, UserRoleCreation,
};
use cayopay_server::stores::{RolePermissionStore, RoleStore, SqlParam, UserRoleStore};

fn uuid(p: &SqlParam) -> u128 {
    match p {
        SqlParam::Uuid(u) => *u,
        _ => panic!("expected a uuid"),
    }
}

#[test]
fn role_statements() {
    let st = RoleStore::create(&RoleCreation { name: "admin".to_string(), description: None });
    assert!(st.sql.starts_with("INSERT INTO roles (name, description)"));
    assert!(matches!(&st.params[0], SqlParam::Text(t) if t == "admin"));
    assert!(matches!(&st.params[1], SqlParam::NullableText(None)));
    let st = RoleStore::find_by_name("admin");
    assert!(st.sql.ends_with("WHERE name = $1"));
    assert!(matches!(&st.params[0], SqlParam::Text(t) if t == "admin"));
    let st = RoleStore::find_by_id(&RoleId::from_uuid(5));
    assert_eq!(uuid(&st.params[0]), 5);
    assert!(RoleStore::list_all().sql.ends_with("ORDER BY name"));
    assert!(RoleStore::list_all().params.is_empty());
    assert_eq!(RoleStore::delete_by_id(&RoleId::from_uuid(6)).sql, "DELETE FROM roles WHERE id = $1");
}

#[test]
fn role_permission_statements() {
    let st = RolePermissionStore::add(&RolePermissionCreation {
        role_id: RoleId::from_uuid(1),
        permission: "invite.send".to_string(),
        scope_kind: Some("shop".to_string()),
        scope_id: None,
    });
    assert_eq!(st.params.len(), 4);
    assert_eq!(uuid(&st.params[0]), 1);
    assert!(matches!(&st.params[1], SqlParam::Text(t) if t == "invite.send"));
    assert!(matches!(&st.params[2], SqlParam::NullableText(Some(t)) if t == "shop"));
    assert!(matches!(&st.params[3], SqlParam::NullableUuid(None)));
    assert!(RolePermissionStore::list_for_role(&RoleId::from_uuid(1)).sql.ends_with("WHERE role_id = $1"));
}

#[test]
fn assignment_is_an_insert_or_a_lookup() {
    let c = UserRoleCreation { user_id: UserId::from_uuid(2), role_id: RoleId::from_uuid(3) };
    let insert = UserRoleStore::assign(&c);
    assert!(insert.sql.contains("ON CONFLICT (user_id, role_id) DO NOTHING"));
    let lookup = UserRoleStore::assign_existing(&c);
    assert!(lookup.sql.ends_with("WHERE user_id = $1 AND role_id = $2"));
    for st in [insert, lookup] {
        assert_eq!(uuid(&st.params[0]), 2);
        assert_eq!(uuid(&st.params[1]), 3);
    }
    let st = UserRoleStore::revoke_by_user_and_role(&UserId::from_uuid(2), &RoleId::from_uuid(3));
    assert_eq!(st.sql, "DELETE FROM user_roles WHERE user_id = $1 AND role_id = $2");
}

#[test]
fn actors_get_their_user_and_guest() {
    let a = |n: u128| ActorId::from_uuid(n);
    let actors = vec![(a(1), "one"), (a(2), "two"), (a(3), "three"), (a(1), "one again")];
    let users = vec![(a(1), "u1"), (a(3), "u3-old"), (a(3), "u3")];
    let guests = vec![(a(2), "g2"), (a(9), "g9")];
    let details = list_actors(actors, users, guests);
    let seen: Vec<_> = details.iter().map(|d| (d.actor, d.user, d.guest)).collect();
    assert_eq!(
        seen,
        vec![
            ("one", Some("u1"), None),
            ("two", None, Some("g2")),
            ("three", Some("u3"), None),
            ("one again", None, None),
        ]
    );
}
