//! A wish list service: users keep wishes, share them with friends or with
//! everyone, and manage friendships between accounts.
//!
//! The library holds the rules of the service: which rows a request reads,
//! what it writes and which page it answers with. The tables themselves live in
//! a database that the application reads and writes; the library works on the
//! rows that the application hands it.
pub mod models;
pub mod text;
pub mod query;
pub mod columns;
pub mod services;
pub mod laws;
