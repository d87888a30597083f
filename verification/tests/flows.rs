use cayopay_server::credentials::{Email, RawPassword};
use cayopay_server::error::AppError;
use cayopay_server::flows::{
    Acceptance, AcceptStage, Action, Answer, AuthStage, Authentication, FoundInvite,
    InviteRequest, InviteStage, RegisterStage, Registration,
};
use cayopay_server::models::{InviteId, RoleId, UserId};
use cayopay_server::permission::GlobalPermission;
use cayopay_server::stores::SqlParam;

fn sql(a: &Action) -> &'static str {
    match a {
        Action::Run(st) => st.sql,
        _ => panic!("expected a statement"),
    }
}

fn registration() -> Registration {
    Registration {
        email: Email::new("ann@x.io"),
        password: RawPassword::new("secret"),
        first_name: "Ann".to_string(),
        last_name: "Lee".to_string(),
    }
}

#[test]
fn registration_with_a_taken_address_writes_nothing() {
    let flow = registration();
    let (a, s) = flow.start();
    assert!(sql(&a).ends_with("FROM users WHERE email = $1"));
    let (a, s) = flow.step(s, Answer::Found(true));
    assert!(matches!(a, Action::Finish(Err(AppError::UserAlreadyExists))));
    assert!(matches!(s, RegisterStage::Finished(None)));
}

#[test]
fn registration_creates_actor_user_and_wallet_in_one_transaction() {
    let flow = registration();
    let (_, s) = flow.start();
    let (a, s) = flow.step(s, Answer::Found(false));
    assert!(matches!(a, Action::Begin));
    let (a, s) = flow.step(s, Answer::Done);
    assert_eq!(sql(&a), "INSERT INTO actors DEFAULT VALUES RETURNING id");
    let (a, s) = flow.step(s, Answer::Created(7));
    match &a {
        Action::Run(st) => {
            assert!(st.sql.starts_with("INSERT INTO users"));
            assert!(matches!(st.params[0], SqlParam::Uuid(7)));
            assert!(matches!(&st.params[2], SqlParam::Text(h) if h.starts_with("$argon2id$v=19$")));
        }
        _ => panic!("expected the user insert"),
    }
    let (a, s) = flow.step(s, Answer::Created(8));
    match &a {
        Action::Run(st) => {
            assert!(st.sql.starts_with("INSERT INTO wallets"));
            assert!(matches!(st.params[0], SqlParam::NullableUuid(Some(7))));
            assert!(matches!(st.params[2], SqlParam::Bool(false)));
        }
        _ => panic!("expected the wallet insert"),
    }
    let (a, s) = flow.step(s, Answer::Done);
    assert!(matches!(a, Action::Commit));
    let (a, s) = flow.step(s, Answer::Done);
    assert!(matches!(a, Action::Finish(Ok(()))));
    assert!(matches!(s, RegisterStage::Finished(Some(u)) if u.into_inner() == 8));
}

fn invite_request() -> InviteRequest {
    InviteRequest::new(UserId::from_uuid(1), Email::new("new@x.io"), "member".to_string(), 1_000)
}

#[test]
fn refused_invites_store_and_send_nothing() {
    let flow = invite_request();
    let (a, s) = flow.start();
    assert!(matches!(a, Action::CheckPermission(GlobalPermission::SendInvite)));
    let denial = AppError::PermissionDenied { permission: "invite.send".to_string(), scope: "global".to_string() };
    let (a, _) = flow.step(s, Answer::Permission(Err(denial)));
    assert!(matches!(a, Action::Finish(Err(AppError::PermissionDenied { .. }))));

    let (a, s) = flow.step(InviteStage::Authorizing, Answer::Permission(Ok(())));
    assert!(sql(&a).ends_with("FROM roles WHERE name = $1"));
    let (a, _) = flow.step(s, Answer::Found(false));
    assert!(matches!(a, Action::Finish(Err(AppError::BadRequest(t))) if t == "Role 'member' does not exist"));

    let (a, _) = flow.step(InviteStage::CheckingAddress, Answer::Found(true));
    assert!(matches!(a, Action::Finish(Err(AppError::UserAlreadyExists))));

    let (a, s) = flow.step(InviteStage::FindingInvite, Answer::Existing(Some((InviteId::from_uuid(5), 2_000))));
    assert!(matches!(a, Action::Finish(Err(AppError::InviteAlreadySent))));
    assert!(matches!(s, InviteStage::Finished));
}

#[test]
fn an_invite_is_stored_then_mailed_once_with_its_token() {
    let flow = invite_request();
    let (a, s) = flow.step(InviteStage::FindingInvite, Answer::Existing(Some((InviteId::from_uuid(5), 999))));
    assert_eq!(sql(&a), "DELETE FROM invites WHERE id = $1");
    let (a, s) = flow.step(s, Answer::Done);
    assert!(sql(&a).ends_with("FROM users WHERE id = $1"));
    let (a, s) = flow.step(s, Answer::Names(Some(("Ann".to_string(), "Lee".to_string()))));
    match &a {
        Action::Run(st) => {
            assert!(st.sql.starts_with("INSERT INTO invites"));
            assert!(matches!(st.params[4], SqlParam::Timestamp(604_800_001_000)));
        }
        _ => panic!("expected the invite insert"),
    }
    let (a, s) = flow.step(s, Answer::Done);
    match &a {
        Action::SendInvite { to, token, inviter_name } => {
            assert_eq!(to.expose(), "new@x.io");
            assert_eq!(token, &flow.creation.token);
            assert_eq!(inviter_name, "Ann Lee");
        }
        _ => panic!("expected the mail"),
    }
    let (a, _) = flow.step(s, Answer::Done);
    assert!(matches!(a, Action::Finish(Ok(()))));
    let (_, s) = flow.step(InviteStage::FindingInviter, Answer::Names(None));
    assert!(matches!(s, InviteStage::Storing(n) if n == "Someone"));
}

fn acceptance() -> Acceptance {
    Acceptance {
        token: "tok".to_string(),
        now: 100,
        password: RawPassword::new("pw"),
        first_name: "Bo".to_string(),
        last_name: "Ng".to_string(),
    }
}

fn found(expires_at: i64) -> FoundInvite {
    FoundInvite { id: InviteId::from_uuid(3), email: Email::new("bo@x.io"), role: "member".to_string(), expires_at }
}

#[test]
fn a_missing_or_expired_invite_is_refused() {
    let flow = acceptance();
    let (a, _) = flow.start();
    assert!(sql(&a).ends_with("FROM invites WHERE token = $1"));
    let (a, _) = flow.step(AcceptStage::FindingInvite, Answer::Invite(None));
    assert!(matches!(a, Action::Finish(Err(AppError::NotFound))));
    let (a, _) = flow.step(AcceptStage::FindingInvite, Answer::Invite(Some(found(99))));
    assert!(matches!(a, Action::Finish(Err(AppError::InviteExpired))));
}

#[test]
fn an_accepted_invite_registers_assigns_and_is_deleted() {
    let flow = acceptance();
    let (a, s) = flow.step(AcceptStage::FindingInvite, Answer::Invite(Some(found(100))));
    assert!(matches!(&a, Action::Run(st) if matches!(&st.params[0], SqlParam::Text(t) if t == "bo@x.io")));
    let (_, s) = flow.step(s, Answer::Found(false));
    let (_, s) = flow.step(s, Answer::Done);
    let (_, s) = flow.step(s, Answer::Created(11));
    let (_, s) = flow.step(s, Answer::Created(12));
    let (a, s) = flow.step(s, Answer::Done);
    assert!(matches!(a, Action::Commit));
    let (a, s) = flow.step(s, Answer::Done);
    assert!(sql(&a).ends_with("FROM roles WHERE name = $1"));
    let (a, s) = flow.step(s, Answer::Role(Some(RoleId::from_uuid(4))));
    assert!(sql(&a).contains("ON CONFLICT (user_id, role_id) DO NOTHING"));
    let (a, s) = flow.step(s, Answer::Inserted(false));
    assert!(sql(&a).ends_with("WHERE user_id = $1 AND role_id = $2"));
    let (a, s) = flow.step(s, Answer::Done);
    assert_eq!(sql(&a), "DELETE FROM invites WHERE id = $1");
    let (a, _) = flow.step(s, Answer::Done);
    assert!(matches!(a, Action::Finish(Ok(()))));
}

#[test]
fn a_vanished_invite_role_keeps_the_invite() {
    let flow = acceptance();
    let stage = AcceptStage::FindingRole { invite: InviteId::from_uuid(3), user: UserId::from_uuid(12), role: "member".to_string() };
    let (a, _) = flow.step(stage, Answer::Role(None));
    assert!(matches!(a, Action::Finish(Err(AppError::BadRequest(_)))));
}

#[test]
fn authentication_refuses_and_deletes_expired_sessions() {
    let none = Authentication { token: None, now: 5 };
    assert!(matches!(none.start().0, Action::Finish(Err(AppError::Authentication))));
    let flow = Authentication { token: Some("t".to_string()), now: 5 };
    let (a, s) = flow.start();
    assert!(sql(&a).ends_with("FROM sessions WHERE token = $1"));
    assert!(matches!(s, AuthStage::FindingSession));
    let (a, _) = flow.step(AuthStage::FindingSession, Answer::Session(None));
    assert!(matches!(a, Action::Finish(Err(AppError::Authentication))));
    let (a, s) = flow.step(AuthStage::FindingSession, Answer::Session(Some((UserId::from_uuid(2), 4))));
    assert_eq!(sql(&a), "DELETE FROM sessions WHERE token = $1");
    let (a, _) = flow.step(s, Answer::Done);
    assert!(matches!(a, Action::Finish(Err(AppError::Authentication))));
    let (a, s) = flow.step(AuthStage::FindingSession, Answer::Session(Some((UserId::from_uuid(2), 5))));
    assert!(sql(&a).ends_with("FROM users WHERE id = $1"));
    let (a, _) = flow.step(s, Answer::Found(true));
    assert!(matches!(a, Action::Finish(Ok(()))));
    let (a, _) = flow.step(AuthStage::FindingUser, Answer::Found(false));
    assert!(matches!(a, Action::Finish(Err(AppError::Authentication))));
}
