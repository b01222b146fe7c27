//! The diagnostic session of a server: its type, the security access level
//! that was unlocked, and whether a link control transition was verified.
use vstd::prelude::*;

verus! {

/// The diagnostic session types of ISO 14229-1.
#[derive(Debug, Clone, Copy, PartialEq, Eq, Structural)]
pub enum SessionType {
    Default,
    Programming,
    Extended,
    SafetySystemDiagnostic,
    VehicleManufacturerSpecific(u8),
    SystemSupplierSpecific(u8),
    Reserved(u8),
}

/// The session state of a server.
#[derive(Debug, Clone, Copy, PartialEq, Eq, Structural)]
pub struct SessionState {
    pub session_type: SessionType,
    /// The security access level unlocked last; 0 when locked.
    pub security_access_level: u8,
    /// A LinkControl verification waits for its transition.
    pub link_control_armed: bool,
}

impl SessionState {
    /// The default session, locked, with no verified link transition.
    pub open spec fn initial() -> SessionState {
        SessionState {
            session_type: SessionType::Default,
            security_access_level: 0,
            link_control_armed: false,
        }
    }

    /// The state after power-up.
    pub fn new() -> (s: SessionState)
        ensures
            s == SessionState::initial(),
    {
        SessionState {
            session_type: SessionType::Default,
            security_access_level: 0,
            link_control_armed: false,
        }
    }

    /// The session type in force.
    pub fn get_session_type(&self) -> (t: SessionType)
        ensures
            t == self.session_type,
    {
        self.session_type
    }

    /// Enters session `t`.
    pub fn change(&mut self, t: SessionType)
        ensures
            *final(self) == (SessionState { session_type: t, ..*old(self) }),
    {
        self.session_type = t;
    }

    /// Back to the state after power-up.
    pub fn reset(&mut self)
        ensures
            *final(self) == SessionState::initial(),
    {
        *self = SessionState::new();
    }

    /// The security access level unlocked last.
    pub fn get_security_access_level(&self) -> (l: u8)
        ensures
            l == self.security_access_level,
    {
        self.security_access_level
    }

    /// Records that security access level `level` was unlocked.
    pub fn set_security_access_level(&mut self, level: u8)
        ensures
            *final(self) == (SessionState { security_access_level: level, ..*old(self) }),
    {
        self.security_access_level = level;
    }

    /// Records a verified link control mode transition.
    pub fn arm_link_control_verify(&mut self)
        ensures
            *final(self) == (SessionState { link_control_armed: true, ..*old(self) }),
    {
        self.link_control_armed = true;
    }

    /// Uses up a verified transition: says whether there was one.
    pub fn consume_link_control_verify(&mut self) -> (armed: bool)
        ensures
            armed == old(self).link_control_armed,
            *final(self) == (SessionState { link_control_armed: false, ..*old(self) }),
    {
        let armed = self.link_control_armed;
        self.link_control_armed = false;
        armed
    }
}

} // verus!
