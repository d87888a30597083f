use cayopay_server::config::{
    default_host, default_owner_email, default_owner_first_name, default_owner_last_name,
    default_owner_password, default_port, default_session_cookie_name,
    default_session_expiration_days, Config,
};
use cayopay_server::credentials::{Email, RawPassword};
use cayopay_server::email_service::{
    invite_body, invite_subject, tls_mode, EmailError, TlsMode,
};
use cayopay_server::responses::health_check;
use cayopay_server::text::{decimal_text, join_strs};

fn config(host: &str, port: u16) -> Config {
    Config {
        host: host.to_string(),
        port,
        database_url: "postgres://localhost/db".to_string(),
        database_migrations: false,
        smtp_host: "smtp.example.com".to_string(),
        smtp_port: 587,
        smtp_username: Email::new("mailer@example.com"),
        smtp_password: RawPassword::new("hunter2"),
        smtp_from: "CayoPay <no-reply@example.com>".to_string(),
        session_cookie_name: default_session_cookie_name(),
        session_expiration_days: default_session_expiration_days(),
        owner_email: default_owner_email(),
        owner_password: default_owner_password(),
        owner_first_name: default_owner_first_name(),
        owner_last_name: default_owner_last_name(),
    }
}

#[test]
fn defaults() {
    assert_eq!(default_host(), "127.0.0.1");
    assert_eq!(default_port(), 3000);
    assert_eq!(default_session_cookie_name(), "cayopay_session");
    assert_eq!(default_session_expiration_days(), 1);
    assert_eq!(default_owner_email().expose(), "admin@example.com");
    assert_eq!(default_owner_password().expose(), "password");
    assert_eq!(default_owner_first_name(), "Admin");
    assert_eq!(default_owner_last_name(), "User");
}

#[test]
fn server_address_is_host_colon_port() {
    assert_eq!(config(&default_host(), default_port()).server_addr(), "127.0.0.1:3000");
    assert_eq!(config("0.0.0.0", 0).server_addr(), "0.0.0.0:0");
    assert_eq!(config("localhost", 65535).server_addr(), "localhost:65535");
}

#[test]
fn email_config_copies_the_smtp_settings() {
    let c = config("h", 1).email_config();
    assert_eq!(c.host, "smtp.example.com");
    assert_eq!(c.port, 587);
    assert_eq!(c.username, "mailer@example.com");
    assert_eq!(c.password, "hunter2");
    assert_eq!(c.from, "CayoPay <no-reply@example.com>");
}

#[test]
fn decimal_and_join() {
    assert_eq!(decimal_text(0), "0");
    assert_eq!(decimal_text(7), "7");
    assert_eq!(decimal_text(1024), "1024");
    assert_eq!(decimal_text(u64::MAX), "18446744073709551615");
    assert_eq!(join_strs(&[], ", "), "");
    assert_eq!(join_strs(&["a"], ", "), "a");
    assert_eq!(join_strs(&["a", "b", "c"], ", "), "a, b, c");
}

#[test]
fn tls_by_port() {
    assert_eq!(tls_mode(465), TlsMode::Wrapper);
    assert_eq!(tls_mode(587), TlsMode::Opportunistic);
    assert_eq!(tls_mode(25), TlsMode::Default);
    assert_eq!(tls_mode(2525), TlsMode::Default);
}

#[test]
fn invitation_mail() {
    assert_eq!(invite_subject(), "You have been invited to CayoPay");
    assert_eq!(
        invite_body("Ada Lovelace", "tok-1"),
        "<h1>CayoPay Invitation</h1><br><p>You have been invited to CayoPay by <b>Ada Lovelace</b>.</p><p>Your invite token is: <i>tok-1</i></p>"
    );
}

#[test]
fn email_errors() {
    assert_eq!(
        EmailError::from_address("missing @").message(),
        "Failed to parse email address: From address error: missing @"
    );
    assert_eq!(
        EmailError::to_address("bad").message(),
        "Failed to parse email address: To address error: bad"
    );
    assert_eq!(EmailError::Build("b".to_string()).message(), "Failed to build email: b");
    assert_eq!(EmailError::Transport("t".to_string()).message(), "Failed to send email: t");
}

#[test]
fn health_is_ok() {
    assert_eq!(health_check().status, "ok");
}
