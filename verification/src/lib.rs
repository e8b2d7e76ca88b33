//! Read-model composition for local users.
//!
//! A local user is spread over four relations: the account with its login
//! secret and settings, the profile with its public identity, the profile's
//! statistics, and the account's language preferences. This crate joins
//! them into one record, in two shapes: [`local_user_view::LocalUserView`]
//! holds everything, [`local_user_view::LocalUserSettingsView`] leaves out
//! the login secret and the profile's key pair.
//!
//! The relations are read from a [`store::Store`], a snapshot that the
//! caller has fetched; nothing here reaches for storage. Every lookup joins
//! in the same way:
//!
//! - an account counts only together with its profile;
//! - among the accounts that satisfy the key, the one with the lowest
//!   identity is taken;
//! - the profile's statistics must be there, else the lookup ends in
//!   [`error::ViewError::IntegrityFault`];
//! - the account's language preferences, none or many, become one sequence
//!   in table order.
//!
//! Names and emails are compared exactly, except by
//! [`lookup::Lookup::EmailOrName`], which reads its key as a pattern (see
//! [`pattern`]) and compares letters without regard to ASCII case.
//!
//! [`laws`] states what holds of every lookup on every snapshot.

pub mod aggregates;
pub mod error;
pub mod ids;
pub mod language;
pub mod laws;
pub mod local_user;
pub mod local_user_view;
pub mod lookup;
pub mod pattern;
pub mod person;
pub mod store;
