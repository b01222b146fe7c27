//! A request as the ISO 14229-1 crate reads it, and the sub-function types
//! that the server's services read from it.
use vstd::prelude::*;

use super::context::{CommunicationCtrlType, IoCtrlParameter, RoutineCtrlType};
use super::service::{EcuResetType, LinkCtrlType, SubFunc};
use super::context::DtcSettingType;
use super::session::SessionType;

verus! {

/// A request: its service identifier, its sub-function when the service
/// has one, and the rest of its bytes. The sub-function is kept as the
/// crate keeps it: its byte (the function, with the suppress bit when that
/// is set) and whether the positive answer is to be suppressed.
#[derive(Debug, Clone)]
pub struct UdsRequest {
    pub service: u8,
    pub sub_func: Option<(u8, bool)>,
    pub data: Vec<u8>,
}

/// The mathematical value of a [`UdsRequest`].
pub struct UdsRequestView {
    pub service: u8,
    pub sub_func: Option<(u8, bool)>,
    pub data: Seq<u8>,
}

impl View for UdsRequest {
    type V = UdsRequestView;

    open spec fn view(&self) -> UdsRequestView {
        UdsRequestView { service: self.service, sub_func: self.sub_func, data: self.data@ }
    }
}

/// The function of a sub-function byte: without the suppress bit when that
/// is set.
pub open spec fn function_of(b: u8, suppress: bool) -> u8 {
    if suppress {
        b & 0x7F
    } else {
        b
    }
}

/// The request's function, if it has a sub-function.
pub open spec fn function_opt(r: UdsRequestView) -> Option<u8> {
    match r.sub_func {
        Some((b, s)) => Some(function_of(b, s)),
        None => None,
    }
}

/// The request's sub-function byte, if any.
pub open spec fn sub_func_byte(r: UdsRequestView) -> Option<u8> {
    match r.sub_func {
        Some((b, _)) => Some(b),
        None => None,
    }
}

/// The request's sub-function, split into the function and the suppress
/// bit.
pub open spec fn sub_func_of(r: UdsRequestView) -> Option<SubFunc> {
    match r.sub_func {
        Some((b, s)) => Some(SubFunc { function: function_of(b, s), suppress_positive: s }),
        None => None,
    }
}

impl UdsRequest {
    /// The sub-function, split into the function and the suppress bit.
    pub fn sub_function(&self) -> (sf: Option<SubFunc>)
        ensures
            sf == sub_func_of(self@),
    {
        match self.sub_func {
            Some((b, s)) => Some(
                SubFunc { function: if s {
                    b & 0x7F
                } else {
                    b
                }, suppress_positive: s },
            ),
            None => None,
        }
    }

    /// The function of the sub-function, if any.
    pub fn function(&self) -> (f: Option<u8>)
        ensures
            f == function_opt(self@),
    {
        match self.sub_func {
            Some((b, s)) => Some(if s {
                b & 0x7F
            } else {
                b
            }),
            None => None,
        }
    }

    /// The sub-function byte, if any.
    pub fn sub_func_byte(&self) -> (b: Option<u8>)
        ensures
            b == sub_func_byte(self@),
    {
        match self.sub_func {
            Some((b, _)) => Some(b),
            None => None,
        }
    }
}

/// `SessionType::try_from(u8)` of ISO 14229-1.
pub open spec fn spec_session_type(f: u8) -> Result<SessionType, ()> {
    if f == 0x01 {
        Ok(SessionType::Default)
    } else if f == 0x02 {
        Ok(SessionType::Programming)
    } else if f == 0x03 {
        Ok(SessionType::Extended)
    } else if f == 0x04 {
        Ok(SessionType::SafetySystemDiagnostic)
    } else if 0x05 <= f <= 0x3F || f == 0x7F {
        Ok(SessionType::Reserved(f))
    } else if 0x40 <= f <= 0x5F {
        Ok(SessionType::VehicleManufacturerSpecific(f))
    } else if 0x60 <= f <= 0x7E {
        Ok(SessionType::SystemSupplierSpecific(f))
    } else {
        Err(())
    }
}

/// The session type that a sub-function byte names.
pub fn session_type_of(f: u8) -> (t: Result<SessionType, ()>)
    ensures
        t == spec_session_type(f),
{
    if f == 0x01 {
        Ok(SessionType::Default)
    } else if f == 0x02 {
        Ok(SessionType::Programming)
    } else if f == 0x03 {
        Ok(SessionType::Extended)
    } else if f == 0x04 {
        Ok(SessionType::SafetySystemDiagnostic)
    } else if (0x05 <= f && f <= 0x3F) || f == 0x7F {
        Ok(SessionType::Reserved(f))
    } else if 0x40 <= f && f <= 0x5F {
        Ok(SessionType::VehicleManufacturerSpecific(f))
    } else if 0x60 <= f && f <= 0x7E {
        Ok(SessionType::SystemSupplierSpecific(f))
    } else {
        Err(())
    }
}

/// `ECUResetType::try_from(u8)` of ISO 14229-1.
pub open spec fn spec_ecu_reset_type(f: u8) -> Result<EcuResetType, ()> {
    if f == 0x01 {
        Ok(EcuResetType::HardReset)
    } else if f == 0x02 {
        Ok(EcuResetType::KeyOffOnReset)
    } else if f == 0x03 {
        Ok(EcuResetType::SoftReset)
    } else if f == 0x04 {
        Ok(EcuResetType::EnableRapidPowerShutDown)
    } else if f == 0x05 {
        Ok(EcuResetType::DisableRapidPowerShutDown)
    } else if 0x06 <= f <= 0x3F || f == 0x7F {
        Ok(EcuResetType::Reserved(f))
    } else if 0x40 <= f <= 0x5F {
        Ok(EcuResetType::VehicleManufacturerSpecific(f))
    } else if 0x60 <= f <= 0x7E {
        Ok(EcuResetType::SystemSupplierSpecific(f))
    } else {
        Err(())
    }
}

/// The reset type that a sub-function byte names.
pub fn ecu_reset_type_of(f: u8) -> (t: Result<EcuResetType, ()>)
    ensures
        t == spec_ecu_reset_type(f),
{
    if f == 0x01 {
        Ok(EcuResetType::HardReset)
    } else if f == 0x02 {
        Ok(EcuResetType::KeyOffOnReset)
    } else if f == 0x03 {
        Ok(EcuResetType::SoftReset)
    } else if f == 0x04 {
        Ok(EcuResetType::EnableRapidPowerShutDown)
    } else if f == 0x05 {
        Ok(EcuResetType::DisableRapidPowerShutDown)
    } else if (0x06 <= f && f <= 0x3F) || f == 0x7F {
        Ok(EcuResetType::Reserved(f))
    } else if 0x40 <= f && f <= 0x5F {
        Ok(EcuResetType::VehicleManufacturerSpecific(f))
    } else if 0x60 <= f && f <= 0x7E {
        Ok(EcuResetType::SystemSupplierSpecific(f))
    } else {
        Err(())
    }
}

/// `DTCSettingType::try_from(u8)` of ISO 14229-1.
pub open spec fn spec_dtc_setting_type(f: u8) -> Result<DtcSettingType, ()> {
    if f == 0x01 {
        Ok(DtcSettingType::On)
    } else if f == 0x02 {
        Ok(DtcSettingType::Off)
    } else if 0x03 <= f <= 0x3F || f == 0x7F {
        Ok(DtcSettingType::Reserved(f))
    } else if 0x40 <= f <= 0x5F {
        Ok(DtcSettingType::VehicleManufacturerSpecific(f))
    } else if 0x60 <= f <= 0x7E {
        Ok(DtcSettingType::SystemSupplierSpecific(f))
    } else {
        Err(())
    }
}

/// The DTC setting that a sub-function byte names.
pub fn dtc_setting_type_of(f: u8) -> (t: Result<DtcSettingType, ()>)
    ensures
        t == spec_dtc_setting_type(f),
{
    if f == 0x01 {
        Ok(DtcSettingType::On)
    } else if f == 0x02 {
        Ok(DtcSettingType::Off)
    } else if (0x03 <= f && f <= 0x3F) || f == 0x7F {
        Ok(DtcSettingType::Reserved(f))
    } else if 0x40 <= f && f <= 0x5F {
        Ok(DtcSettingType::VehicleManufacturerSpecific(f))
    } else if 0x60 <= f && f <= 0x7E {
        Ok(DtcSettingType::SystemSupplierSpecific(f))
    } else {
        Err(())
    }
}

/// `LinkCtrlType::try_from(u8)` of ISO 14229-1.
pub open spec fn spec_link_ctrl_type(f: u8) -> Result<LinkCtrlType, ()> {
    if f == 0x01 {
        Ok(LinkCtrlType::VerifyModeTransitionWithFixedParameter)
    } else if f == 0x02 {
        Ok(LinkCtrlType::VerifyModeTransitionWithSpecificParameter)
    } else if f == 0x03 {
        Ok(LinkCtrlType::TransitionMode)
    } else if 0x04 <= f <= 0x3F || f == 0x7F {
        Ok(LinkCtrlType::Reserved(f))
    } else if 0x40 <= f <= 0x5F {
        Ok(LinkCtrlType::VehicleManufacturerSpecific(f))
    } else if 0x60 <= f <= 0x7E {
        Ok(LinkCtrlType::SystemSupplierSpecific(f))
    } else {
        Err(())
    }
}

/// The link control type that a sub-function byte names.
pub fn link_ctrl_type_of(f: u8) -> (t: Result<LinkCtrlType, ()>)
    ensures
        t == spec_link_ctrl_type(f),
{
    if f == 0x01 {
        Ok(LinkCtrlType::VerifyModeTransitionWithFixedParameter)
    } else if f == 0x02 {
        Ok(LinkCtrlType::VerifyModeTransitionWithSpecificParameter)
    } else if f == 0x03 {
        Ok(LinkCtrlType::TransitionMode)
    } else if (0x04 <= f && f <= 0x3F) || f == 0x7F {
        Ok(LinkCtrlType::Reserved(f))
    } else if 0x40 <= f && f <= 0x5F {
        Ok(LinkCtrlType::VehicleManufacturerSpecific(f))
    } else if 0x60 <= f && f <= 0x7E {
        Ok(LinkCtrlType::SystemSupplierSpecific(f))
    } else {
        Err(())
    }
}

/// `RoutineCtrlType::try_from(u8)` of ISO 14229-1.
pub open spec fn spec_routine_ctrl_type(f: u8) -> Result<RoutineCtrlType, ()> {
    if f == 0x01 {
        Ok(RoutineCtrlType::StartRoutine)
    } else if f == 0x02 {
        Ok(RoutineCtrlType::StopRoutine)
    } else if f == 0x03 {
        Ok(RoutineCtrlType::RequestRoutineResults)
    } else {
        Err(())
    }
}

/// The routine control type that a sub-function byte names.
pub fn routine_ctrl_type_of(f: u8) -> (t: Result<RoutineCtrlType, ()>)
    ensures
        t == spec_routine_ctrl_type(f),
{
    if f == 0x01 {
        Ok(RoutineCtrlType::StartRoutine)
    } else if f == 0x02 {
        Ok(RoutineCtrlType::StopRoutine)
    } else if f == 0x03 {
        Ok(RoutineCtrlType::RequestRoutineResults)
    } else {
        Err(())
    }
}

/// `CommunicationCtrlType::try_from(u8)` of ISO 14229-1.
pub open spec fn spec_communication_ctrl_type(f: u8) -> Result<CommunicationCtrlType, ()> {
    if f == 0x00 {
        Ok(CommunicationCtrlType::EnableRxAndTx)
    } else if f == 0x01 {
        Ok(CommunicationCtrlType::EnableRxAndDisableTx)
    } else if f == 0x02 {
        Ok(CommunicationCtrlType::DisableRxAndEnableTx)
    } else if f == 0x03 {
        Ok(CommunicationCtrlType::DisableRxAndTx)
    } else if f == 0x04 {
        Ok(CommunicationCtrlType::EnableRxAndDisableTxWithEnhancedAddressInformation)
    } else if f == 0x05 {
        Ok(CommunicationCtrlType::EnableRxAndTxWithEnhancedAddressInformation)
    } else if f <= 0x3F || f == 0x7F {
        Ok(CommunicationCtrlType::Reserved(f))
    } else if 0x40 <= f <= 0x5F {
        Ok(CommunicationCtrlType::VehicleManufacturerSpecific(f))
    } else if 0x60 <= f <= 0x7E {
        Ok(CommunicationCtrlType::SystemSupplierSpecific(f))
    } else {
        Err(())
    }
}

/// The communication control type that a sub-function byte names.
pub fn communication_ctrl_type_of(f: u8) -> (t: Result<CommunicationCtrlType, ()>)
    ensures
        t == spec_communication_ctrl_type(f),
{
    if f == 0x00 {
        Ok(CommunicationCtrlType::EnableRxAndTx)
    } else if f == 0x01 {
        Ok(CommunicationCtrlType::EnableRxAndDisableTx)
    } else if f == 0x02 {
        Ok(CommunicationCtrlType::DisableRxAndEnableTx)
    } else if f == 0x03 {
        Ok(CommunicationCtrlType::DisableRxAndTx)
    } else if f == 0x04 {
        Ok(CommunicationCtrlType::EnableRxAndDisableTxWithEnhancedAddressInformation)
    } else if f == 0x05 {
        Ok(CommunicationCtrlType::EnableRxAndTxWithEnhancedAddressInformation)
    } else if f <= 0x3F || f == 0x7F {
        Ok(CommunicationCtrlType::Reserved(f))
    } else if 0x40 <= f && f <= 0x5F {
        Ok(CommunicationCtrlType::VehicleManufacturerSpecific(f))
    } else if 0x60 <= f && f <= 0x7E {
        Ok(CommunicationCtrlType::SystemSupplierSpecific(f))
    } else {
        Err(())
    }
}

/// `IOCtrlParameter::try_from(u8)` of ISO 14229-1.
pub open spec fn spec_io_ctrl_parameter(b: u8) -> Result<IoCtrlParameter, ()> {
    if b == 0x00 {
        Ok(IoCtrlParameter::ReturnControlToEcu)
    } else if b == 0x01 {
        Ok(IoCtrlParameter::ResetToDefault)
    } else if b == 0x02 {
        Ok(IoCtrlParameter::FreezeCurrentState)
    } else if b == 0x03 {
        Ok(IoCtrlParameter::ShortTermAdjustment)
    } else {
        Err(())
    }
}

/// The input/output control parameter that a byte names.
pub fn io_ctrl_parameter_of(b: u8) -> (p: Result<IoCtrlParameter, ()>)
    ensures
        p == spec_io_ctrl_parameter(b),
{
    if b == 0x00 {
        Ok(IoCtrlParameter::ReturnControlToEcu)
    } else if b == 0x01 {
        Ok(IoCtrlParameter::ResetToDefault)
    } else if b == 0x02 {
        Ok(IoCtrlParameter::FreezeCurrentState)
    } else if b == 0x03 {
        Ok(IoCtrlParameter::ShortTermAdjustment)
    } else {
        Err(())
    }
}

/// `SecurityAccessLevel::try_from(u8)` of ISO 14229-1: levels 0x01 to 0x7D.
pub open spec fn spec_security_level(f: u8) -> Result<u8, ()> {
    if 0x01 <= f <= 0x7D {
        Ok(f)
    } else {
        Err(())
    }
}

/// The security access level that a sub-function byte names.
pub fn security_level_of(f: u8) -> (l: Result<u8, ()>)
    ensures
        l == spec_security_level(f),
{
    if 0x01 <= f && f <= 0x7D {
        Ok(f)
    } else {
        Err(())
    }
}

/// The session type that the request's sub-function names; an error when
/// the request has no sub-function or it names none.
pub open spec fn req_session_type(r: UdsRequestView) -> Result<SessionType, ()> {
    match function_opt(r) {
        Some(f) => spec_session_type(f),
        None => Err(()),
    }
}

/// The reset type that the request's sub-function names, as above.
pub open spec fn req_ecu_reset_type(r: UdsRequestView) -> Result<EcuResetType, ()> {
    match function_opt(r) {
        Some(f) => spec_ecu_reset_type(f),
        None => Err(()),
    }
}

/// The DTC setting that the request's sub-function names, as above.
pub open spec fn req_dtc_setting_type(r: UdsRequestView) -> Result<DtcSettingType, ()> {
    match function_opt(r) {
        Some(f) => spec_dtc_setting_type(f),
        None => Err(()),
    }
}

/// The link control type that the request's sub-function names, as above.
pub open spec fn req_link_ctrl_type(r: UdsRequestView) -> Result<LinkCtrlType, ()> {
    match function_opt(r) {
        Some(f) => spec_link_ctrl_type(f),
        None => Err(()),
    }
}

/// The routine control type that the request's sub-function names, as above.
pub open spec fn req_routine_ctrl_type(r: UdsRequestView) -> Result<RoutineCtrlType, ()> {
    match function_opt(r) {
        Some(f) => spec_routine_ctrl_type(f),
        None => Err(()),
    }
}

/// The security access level that the request's sub-function names, as above.
pub open spec fn req_security_level(r: UdsRequestView) -> Result<u8, ()> {
    match function_opt(r) {
        Some(f) => spec_security_level(f),
        None => Err(()),
    }
}

/// Whether the request's function is at most `max`: the functions that
/// `TesterPresentType::try_from(u8)` accepts are 0x00 alone, those that
/// `AuthenticationTask::try_from(u8)` accepts 0x00 to 0x08.
pub open spec fn req_function_within(r: UdsRequestView, max: u8) -> bool {
    match function_opt(r) {
        Some(f) => f <= max,
        None => false,
    }
}

} // verus!
