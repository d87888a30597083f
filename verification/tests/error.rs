use cayopay_server::error::{ApiError, AppError, AuthError};
use cayopay_server::models::UserId;

fn reply(e: AppError) -> (u16, String) {
    let (status, body) = ApiError::from(e).into_response();
    assert!(body.details.is_none());
    (status, body.message)
}

#[test]
fn every_error_has_its_reply() {
    assert_eq!(reply(AppError::NotFound), (404, "Resource not found".to_string()));
    assert_eq!(reply(AppError::Authentication), (401, "Authentication failed".to_string()));
    assert_eq!(reply(AppError::Unauthorized), (401, "Unauthorized".to_string()));
    assert_eq!(reply(AppError::Authorization), (403, "Permission denied".to_string()));
    assert_eq!(reply(AppError::UserAlreadyExists), (409, "User already exists".to_string()));
    assert_eq!(reply(AppError::InviteAlreadySent), (409, "Invite already sent".to_string()));
    assert_eq!(reply(AppError::InviteExpired), (400, "Invite expired".to_string()));
    assert_eq!(reply(AppError::Validation("email: invalid".to_string())), (400, "email: invalid".to_string()));
    assert_eq!(reply(AppError::BadRequest("bad".to_string())), (400, "bad".to_string()));
    assert_eq!(
        reply(AppError::PermissionDenied { permission: "p".to_string(), scope: "global".to_string() }),
        (403, "Permission denied".to_string())
    );
}

#[test]
fn server_side_failures_reveal_nothing() {
    let internal = "Internal server error".to_string();
    assert_eq!(reply(AppError::Database("connection refused".to_string())), (500, internal.clone()));
    assert_eq!(reply(AppError::InvitorMissing(UserId::from_uuid(1))), (500, internal.clone()));
    assert_eq!(reply(AppError::Email("smtp down".to_string())), (500, internal.clone()));
    assert_eq!(reply(AppError::InternalServerError), (500, internal.clone()));
    assert_eq!(reply(AppError::PasswordHash("salt".to_string())), (500, internal));
}

#[test]
fn error_texts() {
    assert_eq!(AppError::Database("boom".to_string()).message(), "Database error: boom");
    assert_eq!(AppError::NotFound.message(), "Entity not found");
    assert_eq!(AppError::Authorization.message(), "Authorization failed");
    assert_eq!(
        AppError::InvitorMissing(UserId::from_uuid(0xff)).message(),
        "Invitor with user id '00000000-0000-0000-0000-0000000000ff' does not exist"
    );
    assert_eq!(AppError::Email("x".to_string()).message(), "Email error: x");
    assert_eq!(AppError::Validation("x".to_string()).message(), "Validation error: x");
    assert_eq!(AppError::BadRequest("x".to_string()).message(), "Bad request: x");
    assert_eq!(AppError::PasswordHash("x".to_string()).message(), "Password hashing error: x");
    assert_eq!(AppError::InternalServerError.message(), "Internal server error");
    assert_eq!(
        AppError::PermissionDenied { permission: "user.read".to_string(), scope: "global".to_string() }.message(),
        "Permission 'user.read' denied for scope 'global'"
    );
}

#[test]
fn auth_error_replies() {
    assert_eq!(AuthError::Unauthorized.into_response(), (401, "Unauthorized"));
    assert_eq!(AuthError::Forbidden.into_response(), (403, "Forbidden"));
    assert_eq!(AuthError::Database("gone".to_string()).into_response(), (500, "Internal error"));
    assert_eq!(AuthError::Unauthorized.message(), "Unauthorized");
    assert_eq!(AuthError::Forbidden.message(), "Forbidden");
    assert_eq!(AuthError::Database("gone".to_string()).message(), "Database error");
}
