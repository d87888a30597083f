use cayopay_server::credentials::Email;
use cayopay_server::error::AppError;
use cayopay_server::models::{ActorId, UserId};
use cayopay_server::onboarding::{
    existing_invite, invite_acceptance, invite_creation, invite_lifetime, invite_role,
    inviter_name, is_expired, missing_invite_role, new_invite_token, owner_seed,
    personal_wallet, registration, system_wallet, unknown_role,
};

#[test]
fn invites_last_seven_days() {
    assert_eq!(invite_lifetime(), 7 * 24 * 3600 * 1_000_000);
    let c = invite_creation(UserId::from_uuid(9), Email::new("new@x.io"), "admin".to_string());
    assert_eq!(c.invitor.into_inner(), 9);
    assert_eq!(c.email.expose(), "new@x.io");
    assert_eq!(c.role, "admin");
    assert_eq!(c.expires_in, 604_800_000_000);
    assert_eq!(c.token.len(), 36);
}

#[test]
fn invite_tokens_are_fresh_v4_uuids() {
    let a = new_invite_token();
    let b = new_invite_token();
    assert_ne!(a, b);
    for t in [&a, &b] {
        assert_eq!(t.len(), 36);
        assert_eq!(&t[14..15], "4");
        assert_eq!(t.matches('-').count(), 4);
    }
}

#[test]
fn expiry_is_strictly_after_the_instant() {
    assert!(!is_expired(100, 100));
    assert!(is_expired(99, 100));
    assert!(!is_expired(101, 100));
}

#[test]
fn an_existing_invite_blocks_a_new_one_until_it_expires() {
    assert!(matches!(existing_invite(None, 50), Ok(false)));
    assert!(matches!(existing_invite(Some(40), 50), Ok(true)));
    assert!(matches!(existing_invite(Some(50), 50), Err(AppError::InviteAlreadySent)));
    assert!(matches!(existing_invite(Some(60), 50), Err(AppError::InviteAlreadySent)));
}

#[test]
fn acceptance_needs_an_unexpired_invite() {
    assert!(matches!(invite_acceptance(None, 5), Err(AppError::NotFound)));
    assert!(matches!(invite_acceptance(Some(4), 5), Err(AppError::InviteExpired)));
    assert!(invite_acceptance(Some(5), 5).is_ok());
}

#[test]
fn inviter_names() {
    assert_eq!(inviter_name(Some("Ada"), Some("Lovelace")), "Ada Lovelace");
    assert_eq!(inviter_name(None, None), "Someone");
}

#[test]
fn role_errors() {
    match unknown_role("auditor") {
        AppError::BadRequest(m) => assert_eq!(m, "Role 'auditor' does not exist"),
        _ => panic!("expected a bad request"),
    }
    match missing_invite_role("auditor") {
        AppError::BadRequest(m) => {
            assert_eq!(m, "Invite role 'auditor' does not exist; ask an admin to fix this invite")
        }
        _ => panic!("expected a bad request"),
    }
}

#[test]
fn registration_and_owner_seeding() {
    assert!(registration(false).is_ok());
    assert!(matches!(registration(true), Err(AppError::UserAlreadyExists)));
    assert!(matches!(owner_seed(Ok(())), Ok(true)));
    assert!(matches!(owner_seed(Err(AppError::UserAlreadyExists)), Ok(false)));
    assert!(matches!(owner_seed(Err(AppError::InternalServerError)), Err(AppError::InternalServerError)));
}

#[test]
fn invites_for_a_missing_role_are_refused() {
    assert!(invite_role("admin", true).is_ok());
    match invite_role("wizard", false) {
        Err(AppError::BadRequest(text)) => assert_eq!(text, "Role 'wizard' does not exist"),
        _ => panic!("expected a refusal"),
    }
}

#[test]
fn wallets_of_users_and_of_the_system() {
    let w = personal_wallet(ActorId::from_uuid(12));
    assert_eq!(w.owner.map(|o| o.into_inner()), Some(12));
    assert!(w.label.is_none());
    assert!(!w.allow_overdraft);
    let s = system_wallet("fees".to_string());
    assert!(s.owner.is_none());
    assert_eq!(s.label.as_deref(), Some("fees"));
    assert!(s.allow_overdraft);
}
