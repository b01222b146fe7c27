use docan_rs::server::context::{CommunicationCtrlType, DtcSettingType, IoCtrlParameter, RoutineCtrlType};
use docan_rs::server::request::{
    communication_ctrl_type_of, dtc_setting_type_of, ecu_reset_type_of, io_ctrl_parameter_of, link_ctrl_type_of, routine_ctrl_type_of,
    security_level_of, session_type_of,
};
use docan_rs::server::service::{EcuResetType, LinkCtrlType};
use docan_rs::server::session::SessionType;

// Each parser of the library agrees with the ISO 14229-1 crate's own
// reading of the byte, for every byte.

#[test]
fn session_types_agree_with_the_crate() {
    for f in 0..=u8::MAX {
        let ours = session_type_of(f);
        let theirs = iso14229_1::SessionType::try_from(f).map(|t| match t {
            iso14229_1::SessionType::Default => SessionType::Default,
            iso14229_1::SessionType::Programming => SessionType::Programming,
            iso14229_1::SessionType::Extended => SessionType::Extended,
            iso14229_1::SessionType::SafetySystemDiagnostic => SessionType::SafetySystemDiagnostic,
            iso14229_1::SessionType::VehicleManufacturerSpecific(v) => {
                SessionType::VehicleManufacturerSpecific(v)
            }
            iso14229_1::SessionType::SystemSupplierSpecific(v) => SessionType::SystemSupplierSpecific(v),
            iso14229_1::SessionType::Reserved(v) => SessionType::Reserved(v),
        });
        assert_eq!(ours, theirs.map_err(|_| ()), "byte {:02X}", f);
    }
}

#[test]
fn reset_types_agree_with_the_crate() {
    for f in 0..=u8::MAX {
        let theirs = iso14229_1::ECUResetType::try_from(f).map(|t| match t {
            iso14229_1::ECUResetType::HardReset => EcuResetType::HardReset,
            iso14229_1::ECUResetType::KeyOffOnReset => EcuResetType::KeyOffOnReset,
            iso14229_1::ECUResetType::SoftReset => EcuResetType::SoftReset,
            iso14229_1::ECUResetType::EnableRapidPowerShutDown => EcuResetType::EnableRapidPowerShutDown,
            iso14229_1::ECUResetType::DisableRapidPowerShutDown => EcuResetType::DisableRapidPowerShutDown,
            iso14229_1::ECUResetType::VehicleManufacturerSpecific(v) => {
                EcuResetType::VehicleManufacturerSpecific(v)
            }
            iso14229_1::ECUResetType::SystemSupplierSpecific(v) => EcuResetType::SystemSupplierSpecific(v),
            iso14229_1::ECUResetType::Reserved(v) => EcuResetType::Reserved(v),
        });
        assert_eq!(ecu_reset_type_of(f), theirs.map_err(|_| ()), "byte {:02X}", f);
    }
}

#[test]
fn dtc_settings_agree_with_the_crate() {
    for f in 0..=u8::MAX {
        let theirs = iso14229_1::DTCSettingType::try_from(f).map(|t| match t {
            iso14229_1::DTCSettingType::On => DtcSettingType::On,
            iso14229_1::DTCSettingType::Off => DtcSettingType::Off,
            iso14229_1::DTCSettingType::VehicleManufacturerSpecific(v) => {
                DtcSettingType::VehicleManufacturerSpecific(v)
            }
            iso14229_1::DTCSettingType::SystemSupplierSpecific(v) => DtcSettingType::SystemSupplierSpecific(v),
            iso14229_1::DTCSettingType::Reserved(v) => DtcSettingType::Reserved(v),
        });
        assert_eq!(dtc_setting_type_of(f), theirs.map_err(|_| ()), "byte {:02X}", f);
    }
}

#[test]
fn link_control_types_agree_with_the_crate() {
    for f in 0..=u8::MAX {
        let theirs = iso14229_1::LinkCtrlType::try_from(f).map(|t| match t {
            iso14229_1::LinkCtrlType::VerifyModeTransitionWithFixedParameter => {
                LinkCtrlType::VerifyModeTransitionWithFixedParameter
            }
            iso14229_1::LinkCtrlType::VerifyModeTransitionWithSpecificParameter => {
                LinkCtrlType::VerifyModeTransitionWithSpecificParameter
            }
            iso14229_1::LinkCtrlType::TransitionMode => LinkCtrlType::TransitionMode,
            iso14229_1::LinkCtrlType::VehicleManufacturerSpecific(v) => {
                LinkCtrlType::VehicleManufacturerSpecific(v)
            }
            iso14229_1::LinkCtrlType::SystemSupplierSpecific(v) => LinkCtrlType::SystemSupplierSpecific(v),
            iso14229_1::LinkCtrlType::Reserved(v) => LinkCtrlType::Reserved(v),
        });
        assert_eq!(link_ctrl_type_of(f), theirs.map_err(|_| ()), "byte {:02X}", f);
    }
}

#[test]
fn routine_types_and_levels_agree_with_the_crate() {
    for f in 0..=u8::MAX {
        let theirs = iso14229_1::RoutineCtrlType::try_from(f).map(|t| match t {
            iso14229_1::RoutineCtrlType::StartRoutine => RoutineCtrlType::StartRoutine,
            iso14229_1::RoutineCtrlType::StopRoutine => RoutineCtrlType::StopRoutine,
            iso14229_1::RoutineCtrlType::RequestRoutineResults => RoutineCtrlType::RequestRoutineResults,
        });
        assert_eq!(routine_ctrl_type_of(f), theirs.map_err(|_| ()), "byte {:02X}", f);
        let level = iso14229_1::SecurityAccessLevel::try_from(f).map(u8::from);
        assert_eq!(security_level_of(f), level.map_err(|_| ()), "byte {:02X}", f);
    }
}

#[test]
fn communication_ctrl_types_agree_with_the_crate() {
    for f in 0..=u8::MAX {
        let theirs = iso14229_1::CommunicationCtrlType::try_from(f).map(|t| match t {
            iso14229_1::CommunicationCtrlType::EnableRxAndTx => CommunicationCtrlType::EnableRxAndTx,
            iso14229_1::CommunicationCtrlType::EnableRxAndDisableTx => CommunicationCtrlType::EnableRxAndDisableTx,
            iso14229_1::CommunicationCtrlType::DisableRxAndEnableTx => CommunicationCtrlType::DisableRxAndEnableTx,
            iso14229_1::CommunicationCtrlType::DisableRxAndTx => CommunicationCtrlType::DisableRxAndTx,
            iso14229_1::CommunicationCtrlType::EnableRxAndDisableTxWithEnhancedAddressInformation => {
                CommunicationCtrlType::EnableRxAndDisableTxWithEnhancedAddressInformation
            }
            iso14229_1::CommunicationCtrlType::EnableRxAndTxWithEnhancedAddressInformation => {
                CommunicationCtrlType::EnableRxAndTxWithEnhancedAddressInformation
            }
            iso14229_1::CommunicationCtrlType::VehicleManufacturerSpecific(v) => {
                CommunicationCtrlType::VehicleManufacturerSpecific(v)
            }
            iso14229_1::CommunicationCtrlType::SystemSupplierSpecific(v) => CommunicationCtrlType::SystemSupplierSpecific(v),
            iso14229_1::CommunicationCtrlType::Reserved(v) => CommunicationCtrlType::Reserved(v),
        });
        assert_eq!(communication_ctrl_type_of(f), theirs.map_err(|_| ()), "byte {:02X}", f);
    }
}

#[test]
fn io_ctrl_parameters_agree_with_the_crate() {
    for b in 0..=u8::MAX {
        let theirs = iso14229_1::IOCtrlParameter::try_from(b).map(|p| match p {
            iso14229_1::IOCtrlParameter::ReturnControlToEcu => IoCtrlParameter::ReturnControlToEcu,
            iso14229_1::IOCtrlParameter::ResetToDefault => IoCtrlParameter::ResetToDefault,
            iso14229_1::IOCtrlParameter::FreezeCurrentState => IoCtrlParameter::FreezeCurrentState,
            iso14229_1::IOCtrlParameter::ShortTermAdjustment => IoCtrlParameter::ShortTermAdjustment,
        });
        assert_eq!(io_ctrl_parameter_of(b), theirs.map_err(|_| ()), "byte {:02X}", b);
    }
}
