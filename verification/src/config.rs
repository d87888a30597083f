//! Server configuration and its defaults.
use crate::credentials::{Email, RawPassword};
use crate::email_service::EmailServiceConfig;
use crate::text::{decimal, decimal_text};
use vstd::prelude::*;

verus! {

/// The server's configuration, as read from the environment.
pub struct Config {
    pub host: String,
    pub port: u16,
    pub database_url: String,
    pub database_migrations: bool,
    pub smtp_host: String,
    pub smtp_port: u16,
    pub smtp_username: Email,
    pub smtp_password: RawPassword,
    pub smtp_from: String,
    pub session_cookie_name: String,
    pub session_expiration_days: i64,
    pub owner_email: Email,
    pub owner_password: RawPassword,
    pub owner_first_name: String,
    pub owner_last_name: String,
}

pub fn default_host() -> (host: String)
    ensures
        host@ == "127.0.0.1"@,
{
    String::from_str("127.0.0.1")
}

pub fn default_port() -> (port: u16)
    ensures
        port == 3000,
{
    3000
}

pub fn default_session_cookie_name() -> (name: String)
    ensures
        name@ == "cayopay_session"@,
{
    String::from_str("cayopay_session")
}

pub fn default_session_expiration_days() -> (days: i64)
    ensures
        days == 1,
{
    1
}

pub fn default_owner_email() -> (email: Email)
    ensures
        email@ == "admin@example.com"@,
{
    Email::new("admin@example.com")
}

pub fn default_owner_password() -> (password: RawPassword)
    ensures
        password@ == "password"@,
{
    RawPassword::new("password")
}

pub fn default_owner_first_name() -> (name: String)
    ensures
        name@ == "Admin"@,
{
    String::from_str("Admin")
}

pub fn default_owner_last_name() -> (name: String)
    ensures
        name@ == "User"@,
{
    String::from_str("User")
}

impl Config {
    /// The address the server listens on: `host:port`.
    pub fn server_addr(&self) -> (addr: String)
        ensures
            addr@ == self.host@ + ":"@ + decimal(self.port as nat),
    {
        let port = decimal_text(self.port as u64);
        self.host.clone().concat(":").concat(port.as_str())
    }

    /// The SMTP relay settings of the configuration.
    pub fn email_config(&self) -> (c: EmailServiceConfig)
        ensures
            c.host@ == self.smtp_host@,
            c.port == self.smtp_port,
            c.username@ == self.smtp_username@,
            c.password@ == self.smtp_password@,
            c.from@ == self.smtp_from@,
    {
        EmailServiceConfig {
            host: self.smtp_host.clone(),
            port: self.smtp_port,
            username: String::from_str(self.smtp_username.expose()),
            password: String::from_str(self.smtp_password.expose()),
            from: self.smtp_from.clone(),
        }
    }
}

} // verus!
