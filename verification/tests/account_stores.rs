use cayopay_server::account_stores::{ActorStore, GuestStore, InviteStore, SessionStore, UserStore};
use cayopay_server::credentials::{Email, HashedPassword};
use cayopay_server::models::{
    ActorId, GuestCreation, GuestId, GuestUpdate, InviteId, InviteUpdate, SessionCreation,
    SessionId, UserCreation, UserId, UserUpdate,
};
use cayopay_server::onboarding::InviteCreation;
use cayopay_server::stores::SqlParam;

fn text(p: &SqlParam) -> &str {
    match p {
        SqlParam::Text(t) => t,
        _ => panic!("expected text"),
    }
}

#[test]
fn user_creation_binds_every_field() {
    let st = UserStore::create(&UserCreation {
        actor_id: ActorId::from_uuid(7),
        email: Email::new("ann@example.com"),
        password: HashedPassword::new("$argon2id$hash"),
        first_name: "Ann".to_string(),
        last_name: "Lee".to_string(),
    });
    assert!(st.sql.starts_with("INSERT INTO users (actor_id, email, password_hash, first_name, last_name)"));
    assert_eq!(st.params.len(), 5);
    assert!(matches!(st.params[0], SqlParam::Uuid(7)));
    assert_eq!(text(&st.params[1]), "ann@example.com");
    assert_eq!(text(&st.params[2]), "$argon2id$hash");
    assert_eq!(text(&st.params[3]), "Ann");
    assert_eq!(text(&st.params[4]), "Lee");
}

#[test]
fn user_update_keeps_absent_fields() {
    let st = UserStore::update_by_id(
        &UserId::from_uuid(3),
        &UserUpdate { email: None, password: None, first_name: Some("Bo".to_string()), last_name: None },
    );
    assert!(st.sql.contains("first_name = COALESCE($4, first_name)"));
    assert!(matches!(st.params[0], SqlParam::Uuid(3)));
    assert!(matches!(&st.params[1], SqlParam::NullableText(None)));
    assert!(matches!(&st.params[2], SqlParam::NullableText(None)));
    assert!(matches!(&st.params[3], SqlParam::NullableText(Some(t)) if t == "Bo"));
    assert!(matches!(&st.params[4], SqlParam::NullableText(None)));
}

#[test]
fn user_lookups() {
    let st = UserStore::find_by_email(&Email::new("x@y.z"));
    assert!(st.sql.ends_with("FROM users WHERE email = $1"));
    assert_eq!(text(&st.params[0]), "x@y.z");
    assert!(UserStore::find_by_actor_id(&ActorId::from_uuid(1)).sql.ends_with("WHERE actor_id = $1"));
    assert!(UserStore::find_by_id(&UserId::from_uuid(1)).sql.ends_with("WHERE id = $1"));
    assert!(UserStore::list_all().params.is_empty());
}

#[test]
fn actor_statements() {
    let st = ActorStore::create();
    assert_eq!(st.sql, "INSERT INTO actors DEFAULT VALUES RETURNING id");
    assert!(st.params.is_empty());
    assert!(matches!(ActorStore::find_by_id(&ActorId::from_uuid(4)).params[0], SqlParam::Uuid(4)));
}

#[test]
fn guest_statements() {
    let st = GuestStore::create(&GuestCreation {
        actor_id: ActorId::from_uuid(2),
        email: Email::new("g@x.io"),
        verified: false,
    });
    assert!(matches!(st.params[2], SqlParam::Bool(false)));
    let st = GuestStore::update_by_id(&GuestId::from_uuid(5), &GuestUpdate { email: None, verified: Some(true) });
    assert!(matches!(st.params[2], SqlParam::NullableBool(Some(true))));
    assert!(GuestStore::find_by_actor_id(&ActorId::from_uuid(2)).sql.ends_with("WHERE actor_id = $1"));
    assert!(GuestStore::find_by_id(&GuestId::from_uuid(2)).sql.ends_with("WHERE id = $1"));
    assert!(GuestStore::list_all().params.is_empty());
}

#[test]
fn session_expiry_is_now_plus_lifetime() {
    let st = SessionStore::create(
        &SessionCreation {
            user_id: UserId::from_uuid(9),
            token: "tok".to_string(),
            user_agent: Some("curl".to_string()),
            ip_address: None,
            expires_in: 3_600_000_000,
        },
        1_000,
    );
    assert!(matches!(st.params[4], SqlParam::Timestamp(3_600_001_000)));
    assert!(matches!(&st.params[2], SqlParam::NullableText(Some(t)) if t == "curl"));
    assert!(matches!(SessionStore::delete_by_id(&SessionId::from_uuid(6)).params[0], SqlParam::Uuid(6)));
    assert_eq!(SessionStore::delete_by_token("tok").sql, "DELETE FROM sessions WHERE token = $1");
    assert_eq!(text(&SessionStore::find_by_token("tok").params[0]), "tok");
    assert!(SessionStore::list_by_user_id(&UserId::from_uuid(9)).sql.ends_with("WHERE user_id = $1"));
}

#[test]
fn invite_statements() {
    let st = InviteStore::create(
        &InviteCreation {
            invitor: UserId::from_uuid(1),
            email: Email::new("new@x.io"),
            token: "t".to_string(),
            role: "member".to_string(),
            expires_in: 604_800_000_000,
        },
        -5,
    );
    assert!(matches!(st.params[4], SqlParam::Timestamp(604_799_999_995)));
    assert_eq!(text(&st.params[3]), "member");
    let st = InviteStore::update_by_id(&InviteId::from_uuid(8), &InviteUpdate { status: Some("accepted".to_string()) });
    assert!(matches!(&st.params[1], SqlParam::NullableText(Some(t)) if t == "accepted"));
    assert_eq!(InviteStore::delete_by_id(&InviteId::from_uuid(8)).sql, "DELETE FROM invites WHERE id = $1");
    assert!(InviteStore::find_by_email(&Email::new("new@x.io")).sql.ends_with("WHERE email = $1"));
    assert!(InviteStore::find_by_token("t").sql.ends_with("WHERE token = $1"));
    assert!(InviteStore::list_all().params.is_empty());
}
