//! The server side: the state of a diagnostic server and its answers.
use std::collections::HashMap;
use vstd::prelude::*;

use crate::config::Configuration;

pub mod context;
pub mod dispatch;
pub mod dtc;
pub mod laws;
pub mod request;
pub mod request_data;
pub mod service;
pub mod session;
pub(crate) mod uds_codec;

verus! {

/// An ISO-TP address: transmit, receive and functional CAN identifiers.
#[derive(Debug, Clone, Copy, PartialEq, Eq, Structural)]
pub struct Address {
    pub tx_id: u32,
    pub rx_id: u32,
    pub fid: u32,
}

/// The byte order in which multi-byte values are laid out.
#[derive(Debug, Clone, Copy, PartialEq, Eq, Structural)]
pub enum ByteOrder {
    Big,
    Little,
    Native,
}

/// The two timing parameters of a diagnostic session: P2 in milliseconds
/// and P2* in units of 10 ms.
#[derive(Debug, Clone, Copy, PartialEq, Eq, Structural)]
pub struct SessionTiming {
    pub p2: u16,
    pub p2_star: u16,
}

/// The largest P2 (50 ms).
pub const P2_MAX: u16 = 50;

/// The largest P2* (500 times 10 ms).
pub const P2_STAR_MAX: u16 = 500;

impl SessionTiming {
    /// The default timing: the largest values the standard allows.
    pub fn max_timing() -> (t: SessionTiming)
        ensures
            t.p2 == P2_MAX,
            t.p2_star == P2_STAR_MAX,
    {
        SessionTiming { p2: P2_MAX, p2_star: P2_STAR_MAX }
    }

    /// P2 in milliseconds.
    pub fn p2_ms(&self) -> (ms: u64)
        ensures
            ms == self.p2,
    {
        self.p2 as u64
    }

    /// P2* in milliseconds.
    pub fn p2_star_ms(&self) -> (ms: u64)
        ensures
            ms == self.p2_star * 10,
    {
        self.p2_star as u64 * 10
    }
}

/// The configuration of a diagnostic server.
#[derive(Debug, Clone)]
pub struct Config {
    pub address: Address,
    /// The timing that a session starts with.
    pub timing: SessionTiming,
    /// The security access level that the extended session asks for.
    pub extend_sa_level: u8,
    /// The security access level that the programming session asks for.
    pub program_sa_level: u8,
    /// The length of a security access seed.
    pub seed_len: usize,
    /// The salt that the security algorithm is given.
    pub sa_salt: Vec<u8>,
    pub cfg: Configuration,
    /// The security access level that reading each data identifier needs.
    pub did_sa_level: HashMap<u16, u8>,
    pub byte_order: ByteOrder,
}

} // verus!
