//! Command interpretation and transaction orchestration for a pacman-style
//! package manager front end.

pub mod alpm_ops;
pub mod cache;
pub mod cli;
pub mod config;
pub mod dispatch;
pub mod doctor;
pub mod download;
pub mod handle;
pub mod history;
pub mod history_proofs;
pub mod install;
pub mod number;
pub mod parser;
pub mod parser_proofs;
pub mod progress;
pub mod search;
pub mod text;
pub mod transaction;
pub mod transaction_proofs;
