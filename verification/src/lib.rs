//! Verified core of the CayoPay server: typed identifiers, credentials, the
//! permission catalogue and the authorization and onboarding decisions.
pub mod id;
pub mod credentials;
pub mod models;
pub mod permission;
pub mod text;
pub mod error;
pub mod authorization;
pub mod config;
pub mod email_service;
pub mod onboarding;
pub mod session;
pub mod roles;
pub mod flows;
pub mod responses;
pub mod stores;
pub mod actors;
pub mod account_stores;
pub mod ledger_stores;
pub mod sql;
