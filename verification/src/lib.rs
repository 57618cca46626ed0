//! A small credential store: a collection of accounts keyed by a unique
//! label, the steps by which it is written back to its file, the confirmed
//! capture of a secret, and the text in which accounts are shown on a
//! terminal.

pub mod account;
pub mod capture;
pub mod persist;
pub mod render;
pub mod store;
pub mod text;
