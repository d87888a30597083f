use cayopay_server::error::{AppError, AuthError};
use cayopay_server::roles::{
    all_held, any_held, can_assign, context_can_assign, context_require, context_require_all,
    context_require_any, require, require_all, require_any,
};

#[test]
fn any_and_all_of_no_answers() {
    assert!(!any_held(&[]));
    assert!(all_held(&[]));
    assert!(any_held(&[false, false, true]));
    assert!(!all_held(&[true, false, true]));
}

#[test]
fn authz_answers() {
    assert!(require(true).is_ok());
    assert!(matches!(require(false), Err(AppError::Authorization)));
    assert!(matches!(can_assign(false), Err(AppError::Authorization)));
    assert!(require_any(&[false, true]).is_ok());
    assert!(matches!(require_any(&[]), Err(AppError::Authorization)));
    assert!(require_all(&[true, true]).is_ok());
    assert!(matches!(require_all(&[true, false]), Err(AppError::Authorization)));
}

#[test]
fn context_answers() {
    assert!(context_require(true).is_ok());
    assert!(matches!(context_require(false), Err(AuthError::Forbidden)));
    assert!(context_can_assign(true).is_ok());
    assert!(matches!(context_require_any(&[false]), Err(AuthError::Forbidden)));
    assert!(context_require_all(&[]).is_ok());
    assert!(matches!(context_require_all(&[false]), Err(AuthError::Forbidden)));
}
