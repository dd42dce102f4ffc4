//! Write-time policy for the records of a multi-tenant identity store.
//!
//! Every insert or update of a record passes through the record's
//! `before_save`, which derives, validates or clears fields before the change
//! is handed to storage: secrets are hashed, tokens are issued by the server
//! together with their expiry, failed logins lock an account, and a record
//! without an owner is rejected.

pub mod active_value;
pub mod auth_api_key;
pub mod auth_method_magiclink;
pub mod auth_method_pass;
pub mod config;
pub mod engine;
pub mod expiry;
pub mod ident;
pub mod phone;
pub mod pki_key;
pub mod plain;
pub mod rejection;
pub mod timestamp;
pub mod token;
pub mod user;
pub mod user_email;
pub mod user_profile;
pub mod verification;
