//! Application errors, their texts, and the HTTP replies they are answered with.
use crate::id::uuid_text;
use crate::models::UserId;
use std::collections::HashMap;
use vstd::prelude::*;

verus! {

/// Everything that can go wrong while serving a request.
pub enum AppError {
    /// A database failure, with the database's own text.
    Database(String),
    NotFound,
    Authentication,
    Unauthorized,
    Authorization,
    UserAlreadyExists,
    InviteAlreadySent,
    InviteExpired,
    /// The user who sent an invite no longer exists.
    InvitorMissing(UserId),
    /// A mail failure, with the mailer's own text.
    Email(String),
    Validation(String),
    BadRequest(String),
    InternalServerError,
    /// A password hashing failure, with the hasher's own text.
    PasswordHash(String),
    /// A permission check failed for `permission` within `scope`.
    PermissionDenied { permission: String, scope: String },
}

/// The mathematical value of an `AppError`: texts as character sequences,
/// identifiers as their UUID values.
pub enum AppErrorView {
    Database(Seq<char>),
    NotFound,
    Authentication,
    Unauthorized,
    Authorization,
    UserAlreadyExists,
    InviteAlreadySent,
    InviteExpired,
    InvitorMissing(u128),
    Email(Seq<char>),
    Validation(Seq<char>),
    BadRequest(Seq<char>),
    InternalServerError,
    PasswordHash(Seq<char>),
    PermissionDenied { permission: Seq<char>, scope: Seq<char> },
}

impl View for AppError {
    type V = AppErrorView;

    open spec fn view(&self) -> AppErrorView {
        match self {
            AppError::Database(t) => AppErrorView::Database(t@),
            AppError::NotFound => AppErrorView::NotFound,
            AppError::Authentication => AppErrorView::Authentication,
            AppError::Unauthorized => AppErrorView::Unauthorized,
            AppError::Authorization => AppErrorView::Authorization,
            AppError::UserAlreadyExists => AppErrorView::UserAlreadyExists,
            AppError::InviteAlreadySent => AppErrorView::InviteAlreadySent,
            AppError::InviteExpired => AppErrorView::InviteExpired,
            AppError::InvitorMissing(id) => AppErrorView::InvitorMissing(id@),
            AppError::Email(t) => AppErrorView::Email(t@),
            AppError::Validation(t) => AppErrorView::Validation(t@),
            AppError::BadRequest(t) => AppErrorView::BadRequest(t@),
            AppError::InternalServerError => AppErrorView::InternalServerError,
            AppError::PasswordHash(t) => AppErrorView::PasswordHash(t@),
            AppError::PermissionDenied { permission, scope } => AppErrorView::PermissionDenied {
                permission: permission@,
                scope: scope@,
            },
        }
    }
}

/// The text of an application error.
pub open spec fn app_error_text(e: AppErrorView) -> Seq<char> {
    match e {
        AppErrorView::Database(t) => "Database error: "@ + t,
        AppErrorView::NotFound => "Entity not found"@,
        AppErrorView::Authentication => "Authentication failed"@,
        AppErrorView::Unauthorized => "Unauthorized"@,
        AppErrorView::Authorization => "Authorization failed"@,
        AppErrorView::UserAlreadyExists => "User already exists"@,
        AppErrorView::InviteAlreadySent => "Invite already sent"@,
        AppErrorView::InviteExpired => "Invite expired"@,
        AppErrorView::InvitorMissing(id) => "Invitor with user id '"@ + uuid_text(id)
            + "' does not exist"@,
        AppErrorView::Email(t) => "Email error: "@ + t,
        AppErrorView::Validation(t) => "Validation error: "@ + t,
        AppErrorView::BadRequest(t) => "Bad request: "@ + t,
        AppErrorView::InternalServerError => "Internal server error"@,
        AppErrorView::PasswordHash(t) => "Password hashing error: "@ + t,
        AppErrorView::PermissionDenied { permission, scope } => "Permission '"@ + permission
            + "' denied for scope '"@ + scope + "'"@,
    }
}

/// The HTTP status an application error is answered with.
pub open spec fn app_error_status(e: AppErrorView) -> u16 {
    match e {
        AppErrorView::Database(_) => 500,
        AppErrorView::NotFound => 404,
        AppErrorView::Authentication => 401,
        AppErrorView::Unauthorized => 401,
        AppErrorView::Authorization => 403,
        AppErrorView::UserAlreadyExists => 409,
        AppErrorView::InviteAlreadySent => 409,
        AppErrorView::InviteExpired => 400,
        AppErrorView::InvitorMissing(_) => 500,
        AppErrorView::Email(_) => 500,
        AppErrorView::Validation(_) => 400,
        AppErrorView::BadRequest(_) => 400,
        AppErrorView::InternalServerError => 500,
        AppErrorView::PasswordHash(_) => 500,
        AppErrorView::PermissionDenied { .. } => 403,
    }
}

/// The message of the reply to an application error.
pub open spec fn app_error_reply_message(e: AppErrorView) -> Seq<char> {
    match e {
        AppErrorView::NotFound => "Resource not found"@,
        AppErrorView::Authentication => "Authentication failed"@,
        AppErrorView::Unauthorized => "Unauthorized"@,
        AppErrorView::Authorization => "Permission denied"@,
        AppErrorView::UserAlreadyExists => "User already exists"@,
        AppErrorView::InviteAlreadySent => "Invite already sent"@,
        AppErrorView::InviteExpired => "Invite expired"@,
        AppErrorView::Validation(msg) => msg,
        AppErrorView::BadRequest(msg) => msg,
        AppErrorView::PermissionDenied { .. } => "Permission denied"@,
        _ => "Internal server error"@,
    }
}

/// A failure that lies with the server, whose cause the reply keeps to itself.
pub open spec fn is_internal(e: AppErrorView) -> bool {
    match e {
        AppErrorView::Database(_) => true,
        AppErrorView::InvitorMissing(_) => true,
        AppErrorView::Email(_) => true,
        AppErrorView::InternalServerError => true,
        AppErrorView::PasswordHash(_) => true,
        _ => false,
    }
}

impl AppError {
    /// The text of the error.
    pub fn message(&self) -> (text: String)
        ensures
            text@ == app_error_text(self@),
    {
        match self {
            AppError::Database(t) => String::from_str("Database error: ").concat(t.as_str()),
            AppError::NotFound => String::from_str("Entity not found"),
            AppError::Authentication => String::from_str("Authentication failed"),
            AppError::Unauthorized => String::from_str("Unauthorized"),
            AppError::Authorization => String::from_str("Authorization failed"),
            AppError::UserAlreadyExists => String::from_str("User already exists"),
            AppError::InviteAlreadySent => String::from_str("Invite already sent"),
            AppError::InviteExpired => String::from_str("Invite expired"),
            AppError::InvitorMissing(id) => {
                let text = id.to_text();
                String::from_str("Invitor with user id '").concat(text.as_str()).concat(
                    "' does not exist",
                )
            },
            AppError::Email(t) => String::from_str("Email error: ").concat(t.as_str()),
            AppError::Validation(t) => String::from_str("Validation error: ").concat(t.as_str()),
            AppError::BadRequest(t) => String::from_str("Bad request: ").concat(t.as_str()),
            AppError::InternalServerError => String::from_str("Internal server error"),
            AppError::PasswordHash(t) => String::from_str("Password hashing error: ").concat(
                t.as_str(),
            ),
            AppError::PermissionDenied { permission, scope } => String::from_str(
                "Permission '",
            ).concat(permission.as_str()).concat("' denied for scope '").concat(
                scope.as_str(),
            ).concat("'"),
        }
    }
}

/// The body of an error reply.
pub struct ErrorResponse {
    pub message: String,
    pub details: Option<HashMap<String, Vec<String>>>,
}

/// An application error on its way to become an HTTP reply.
pub struct ApiError(pub AppError);

impl From<AppError> for ApiError {
    fn from(inner: AppError) -> (e: ApiError)
        ensures
            e.0@ == inner@,
    {
        ApiError(inner)
    }
}

impl vstd::std_specs::convert::FromSpecImpl<AppError> for ApiError {
    open spec fn obeys_from_spec() -> bool {
        true
    }

    open spec fn from_spec(v: AppError) -> ApiError {
        ApiError(v)
    }
}

impl ApiError {
    /// The status and body the error is answered with. Server-side failures are answered
    /// with status 500 and the message `Internal server error`, whatever their cause.
    pub fn into_response(self) -> (reply: (u16, ErrorResponse))
        ensures
            reply.0 == app_error_status(self.0@),
            reply.1.message@ == app_error_reply_message(self.0@),
            reply.1.details is None,
    {
        let (status, message): (u16, String) = match self.0 {
            AppError::NotFound => (404, String::from_str("Resource not found")),
            AppError::Authentication => (401, String::from_str("Authentication failed")),
            AppError::Unauthorized => (401, String::from_str("Unauthorized")),
            AppError::Authorization => (403, String::from_str("Permission denied")),
            AppError::UserAlreadyExists => (409, String::from_str("User already exists")),
            AppError::InviteAlreadySent => (409, String::from_str("Invite already sent")),
            AppError::InviteExpired => (400, String::from_str("Invite expired")),
            AppError::Validation(msg) => (400, msg),
            AppError::BadRequest(msg) => (400, msg),
            AppError::PermissionDenied { .. } => (403, String::from_str("Permission denied")),
            AppError::Database(_) => (500, String::from_str("Internal server error")),
            AppError::InvitorMissing(_) => (500, String::from_str("Internal server error")),
            AppError::Email(_) => (500, String::from_str("Internal server error")),
            AppError::InternalServerError => (500, String::from_str("Internal server error")),
            AppError::PasswordHash(_) => (500, String::from_str("Internal server error")),
        };
        (status, ErrorResponse { message, details: None })
    }
}

/// Failures of the session-cookie authentication.
pub enum AuthError {
    Unauthorized,
    Forbidden,
    /// A database failure, with the database's own text.
    Database(String),
}

/// The mathematical value of an `AuthError`.
pub enum AuthErrorView {
    Unauthorized,
    Forbidden,
    Database(Seq<char>),
}

impl View for AuthError {
    type V = AuthErrorView;

    open spec fn view(&self) -> AuthErrorView {
        match self {
            AuthError::Unauthorized => AuthErrorView::Unauthorized,
            AuthError::Forbidden => AuthErrorView::Forbidden,
            AuthError::Database(t) => AuthErrorView::Database(t@),
        }
    }
}

/// The text of an authentication error.
pub open spec fn auth_error_text(e: AuthErrorView) -> Seq<char> {
    match e {
        AuthErrorView::Unauthorized => "Unauthorized"@,
        AuthErrorView::Forbidden => "Forbidden"@,
        AuthErrorView::Database(_) => "Database error"@,
    }
}

impl AuthError {
    /// The text of the error.
    pub fn message(&self) -> (text: &'static str)
        ensures
            text@ == auth_error_text(self@),
    {
        match self {
            AuthError::Unauthorized => "Unauthorized",
            AuthError::Forbidden => "Forbidden",
            AuthError::Database(_) => "Database error",
        }
    }

    /// The status and the `error` message the failure is answered with; a database
    /// failure is answered with 500 and `Internal error`.
    pub fn into_response(self) -> (reply: (u16, &'static str))
        ensures
            reply == (match self@ {
                AuthErrorView::Unauthorized => (401u16, "Unauthorized"),
                AuthErrorView::Forbidden => (403u16, "Forbidden"),
                AuthErrorView::Database(_) => (500u16, "Internal error"),
            }),
    {
        match self {
            AuthError::Unauthorized => (401, "Unauthorized"),
            AuthError::Forbidden => (403, "Forbidden"),
            AuthError::Database(_) => (500, "Internal error"),
        }
    }
}

/// Every application error is answered with a client error (4xx) or a server error (5xx)
/// status; server-side failures are answered with 500 and a message that reveals nothing
/// of their cause; every other error is answered with a 4xx status.
pub proof fn lemma_error_replies(e: AppErrorView)
    ensures
        400 <= app_error_status(e) < 600,
        is_internal(e) ==> app_error_status(e) == 500 && app_error_reply_message(e)
            == "Internal server error"@,
        !is_internal(e) ==> 400 <= app_error_status(e) < 500,
{
}

} // verus!
