//! Verified decision logic for sending value on an EVM test network: address
//! and key validation, fee and funds arithmetic, the transfer state machine and
//! the independent result slots of a token reader.

pub mod address;
pub mod cli;
pub mod amount;
pub mod credential;
pub mod error;
pub mod hex_text;
pub mod reader;
pub mod transfer;
