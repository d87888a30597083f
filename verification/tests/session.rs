use cayopay_server::error::AuthError;
use cayopay_server::models::UserId;
use cayopay_server::session::{check_session, session_user, SessionCheck};

#[test]
fn session_verdicts() {
    let user = UserId::from_uuid(3);
    assert!(matches!(check_session(None, 10), SessionCheck::Missing));
    assert!(matches!(check_session(Some((user, 9)), 10), SessionCheck::Expired));
    match check_session(Some((user, 10)), 10) {
        SessionCheck::Valid(u) => assert_eq!(u.into_inner(), 3),
        _ => panic!("a session is valid up to its expiry"),
    }
}

#[test]
fn only_a_valid_session_authenticates() {
    let user = UserId::from_uuid(3);
    assert_eq!(session_user(&SessionCheck::Valid(user)).ok().map(|u| u.into_inner()), Some(3));
    assert!(matches!(session_user(&SessionCheck::Missing), Err(AuthError::Unauthorized)));
    assert!(matches!(session_user(&SessionCheck::Expired), Err(AuthError::Unauthorized)));
}
