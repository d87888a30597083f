//! The invitation mail: its transport security, its text and its failures.
use vstd::prelude::*;

verus! {

/// How to reach the SMTP relay.
pub struct EmailServiceConfig {
    pub host: String,
    pub port: u16,
    pub username: String,
    pub password: String,
    pub from: String,
}

/// The transport security used with the SMTP relay.
#[derive(Debug, Clone, Copy, PartialEq, Eq, Structural)]
pub enum TlsMode {
    /// Implicit TLS: the connection is wrapped in TLS from the start.
    Wrapper,
    /// STARTTLS: the connection is upgraded when the relay offers it.
    Opportunistic,
    /// The relay builder's own default.
    Default,
}

/// The transport security for an SMTP port: implicit TLS on 465, STARTTLS on 587,
/// the builder's default elsewhere.
pub open spec fn tls_mode_for(port: u16) -> TlsMode {
    if port == 465 {
        TlsMode::Wrapper
    } else if port == 587 {
        TlsMode::Opportunistic
    } else {
        TlsMode::Default
    }
}

/// The transport security to use for the relay's port.
pub fn tls_mode(port: u16) -> (mode: TlsMode)
    ensures
        mode == tls_mode_for(port),
{
    match port {
        465 => TlsMode::Wrapper,
        587 => TlsMode::Opportunistic,
        _ => TlsMode::Default,
    }
}

/// The subject of an invitation mail.
pub fn invite_subject() -> (s: &'static str)
    ensures
        s@ == "You have been invited to CayoPay"@,
{
    "You have been invited to CayoPay"
}

/// The HTML body of an invitation mail.
pub open spec fn invite_body_text(inviter_name: Seq<char>, token: Seq<char>) -> Seq<char> {
    "<h1>CayoPay Invitation</h1><br><p>You have been invited to CayoPay by <b>"@ + inviter_name
        + "</b>.</p><p>Your invite token is: <i>"@ + token + "</i></p>"@
}

/// The HTML body of the invitation that `inviter_name` sends with `token`.
pub fn invite_body(inviter_name: &str, token: &str) -> (body: String)
    ensures
        body@ == invite_body_text(inviter_name@, token@),
{
    String::from_str("<h1>CayoPay Invitation</h1><br><p>You have been invited to CayoPay by <b>")
        .concat(inviter_name).concat("</b>.</p><p>Your invite token is: <i>").concat(token).concat(
        "</i></p>",
    )
}

/// Failures of sending a mail; each holds the mailer's own text.
pub enum EmailError {
    AddressParse(String),
    Build(String),
    Transport(String),
}

/// The mathematical value of an `EmailError`.
pub enum EmailErrorView {
    AddressParse(Seq<char>),
    Build(Seq<char>),
    Transport(Seq<char>),
}

impl View for EmailError {
    type V = EmailErrorView;

    open spec fn view(&self) -> EmailErrorView {
        match self {
            EmailError::AddressParse(t) => EmailErrorView::AddressParse(t@),
            EmailError::Build(t) => EmailErrorView::Build(t@),
            EmailError::Transport(t) => EmailErrorView::Transport(t@),
        }
    }
}

/// The text of a mail failure.
pub open spec fn email_error_text(e: EmailErrorView) -> Seq<char> {
    match e {
        EmailErrorView::AddressParse(t) => "Failed to parse email address: "@ + t,
        EmailErrorView::Build(t) => "Failed to build email: "@ + t,
        EmailErrorView::Transport(t) => "Failed to send email: "@ + t,
    }
}

impl EmailError {
    /// The failure of reading the sender address; `detail` is the parser's text.
    pub fn from_address(detail: &str) -> (e: EmailError)
        ensures
            e@ == EmailErrorView::AddressParse("From address error: "@ + detail@),
    {
        EmailError::AddressParse(String::from_str("From address error: ").concat(detail))
    }

    /// The failure of reading the recipient address; `detail` is the parser's text.
    pub fn to_address(detail: &str) -> (e: EmailError)
        ensures
            e@ == EmailErrorView::AddressParse("To address error: "@ + detail@),
    {
        EmailError::AddressParse(String::from_str("To address error: ").concat(detail))
    }

    /// The text of the failure.
    pub fn message(&self) -> (text: String)
        ensures
            text@ == email_error_text(self@),
    {
        match self {
            EmailError::AddressParse(t) => String::from_str("Failed to parse email address: ").concat(
                t.as_str(),
            ),
            EmailError::Build(t) => String::from_str("Failed to build email: ").concat(t.as_str()),
            EmailError::Transport(t) => String::from_str("Failed to send email: ").concat(t.as_str()),
        }
    }
}

} // verus!
