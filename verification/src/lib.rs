//! Rendering of multisig transactions for display: decoding of well-known
//! instructions, resolution of account keys through lookup tables, and the
//! lines that describe vault, config and batch transactions.
pub mod text;
pub mod amount;
pub mod render;
pub mod pubkey;
pub mod decode;
pub mod lookup_table;
pub mod accounts;
pub mod display;
pub mod transaction;
pub mod config;
pub mod command;
