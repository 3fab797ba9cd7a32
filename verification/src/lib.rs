//! Core of a local credential vault: account registration, the login gate
//! with its optional second factor, session resolution, and owner-scoped
//! storage of credential records.
//!
//! - [`users`]: accounts and the registry that keeps them unique.
//! - [`auth`]: the two steps of the login gate.
//! - [`sessions`]: session tokens, bound to an account and an expiry.
//! - [`store`]: credential records, reached only by id and owner together.
//! - [`model`]: the three tables as one mathematical state, and what each
//!   command does to it.
//! - [`vault`]: the vault itself and its commands.
//! - [`laws`]: what holds of the model whatever is asked of it.
//! - [`crypto`]: the calls into `bcrypt`, `rand`, `hex` and `totp_lite`,
//!   whose contracts are taken on trust.
//! - [`errors`]: the failures and their messages.
//!
//! Moments are whole seconds on a clock of the caller's choosing; the vault
//! only compares them and adds a lifetime to them.

pub mod auth;
pub mod crypto;
pub mod errors;
pub mod laws;
pub mod model;
pub mod sessions;
pub mod store;
pub mod users;
pub mod vault;
