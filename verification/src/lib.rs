//! Diagnostic communication over CAN (ISO 14229-1 on ISO 15765-2): the
//! decision logic of a UDS server and client, with its contracts.
use vstd::prelude::*;

pub mod client;
pub mod config;
pub mod nrc;
pub mod server;

verus! {

} // verus!
