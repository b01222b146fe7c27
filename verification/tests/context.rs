use docan_rs::config::Configuration;
use docan_rs::nrc::Nrc;
use docan_rs::server::context::{
    CommunicationControlState, CommunicationCtrlRequest, CommunicationCtrlType, Context,
    DtcSettingType, IoCtrlParameter, IoCtrlRequest, MemoryLocation, RoutineCtrlType,
    TimingParameterAccessType, TransferDirection, CHECK_PROGRAMMING_DEPENDENCIES,
};
use docan_rs::server::dtc::DtcRecord;
use docan_rs::server::{Address, ByteOrder, Config, SessionTiming};

fn test_config() -> Config {
    let mut cfg = Configuration::new();
    cfg.did.insert(0x4101, 2);
    Config {
        address: Address { tx_id: 0x7E0, rx_id: 0x7E8, fid: 0x7DF },
        timing: SessionTiming::max_timing(),
        extend_sa_level: 3,
        program_sa_level: 5,
        seed_len: 4,
        sa_salt: vec![1, 2, 3, 4],
        cfg,
        did_sa_level: Default::default(),
        byte_order: ByteOrder::Little,
    }
}

fn test_context() -> Context {
    Context::new(test_config())
}

fn sample_mem_loc(size: u32) -> MemoryLocation {
    MemoryLocation { alfi: 0x44, mem_addr: 0x0000_0001, mem_size: size as u128 }
}

fn sample_dtc(dtc: u32) -> DtcRecord {
    DtcRecord {
        dtc,
        status: 0x08,
        severity: 0x20,
        func_unit: 0x01,
        fault_counter: 3,
        permanent: true,
        ext_data: vec![(0x02, vec![0xAA, 0xBB])],
        mirror: false,
        emissions_obd: false,
        wwh_obd: None,
    }
}

fn memory_of(ctx: &Context, loc: MemoryLocation) -> Option<Vec<u8>> {
    ctx.memory(loc)
}

#[test]
fn clear_diagnostic_info_clears_all_for_global_group() {
    let mut ctx = test_context();
    ctx.replace_dtcs(vec![sample_dtc(0x112233), sample_dtc(0x445566)]);

    ctx.clear_diagnostic_info(0xFF_FF_FF, None).unwrap();
    assert!(ctx.dtc_records().is_empty());
}

#[test]
fn clear_diagnostic_info_rejects_non_global_group() {
    let mut ctx = test_context();

    let err = ctx.clear_diagnostic_info(0x112233, None).unwrap_err();
    assert_eq!(err, Nrc::RequestOutOfRange);
}

#[test]
fn clear_diagnostic_info_rejects_memory_selection() {
    let mut ctx = test_context();

    let err = ctx.clear_diagnostic_info(0xFF_FF_FF, Some(0x01)).unwrap_err();
    assert_eq!(err, Nrc::RequestOutOfRange);
}

#[test]
fn ctrl_dtc_setting_toggles_enabled_state() {
    let mut ctx = test_context();
    assert!(ctx.dtc_setting_enabled());

    let setting = ctx.set_dtc_setting(DtcSettingType::Off).unwrap();
    assert_eq!(setting, DtcSettingType::Off);
    assert!(!ctx.dtc_setting_enabled());

    let setting = ctx.set_dtc_setting(DtcSettingType::On).unwrap();
    assert_eq!(setting, DtcSettingType::On);
    assert!(ctx.dtc_setting_enabled());
}

#[test]
fn ctrl_dtc_setting_rejects_vendor_specific_sub_function() {
    let mut ctx = test_context();
    let err = ctx
        .set_dtc_setting(DtcSettingType::VehicleManufacturerSpecific(0x40))
        .unwrap_err();

    assert_eq!(err, Nrc::SubFunctionNotSupported);
}

#[test]
fn communication_ctrl_records_real_state_for_standard_and_enhanced_modes() {
    let mut ctx = test_context();

    let base = CommunicationCtrlRequest { comm_type: 0x01, node_id: None };
    ctx.communication_ctrl(CommunicationCtrlType::DisableRxAndTx, &base).unwrap();
    assert_eq!(
        ctx.communication_ctrl_state(),
        CommunicationControlState {
            ctrl_type: CommunicationCtrlType::DisableRxAndTx,
            comm_type: 0x01,
            node_id: None,
        }
    );

    let enhanced = CommunicationCtrlRequest { comm_type: 0x01 | 0x02, node_id: Some(0x1234) };
    ctx.communication_ctrl(
        CommunicationCtrlType::EnableRxAndTxWithEnhancedAddressInformation,
        &enhanced,
    )
    .unwrap();
    assert_eq!(
        ctx.communication_ctrl_state(),
        CommunicationControlState {
            ctrl_type: CommunicationCtrlType::EnableRxAndTxWithEnhancedAddressInformation,
            comm_type: 0x01 | 0x02,
            node_id: Some(0x1234),
        }
    );
}

#[test]
fn communication_ctrl_rejects_non_standard_subfunctions_and_resets_to_default() {
    let mut ctx = test_context();
    let ctrl = CommunicationCtrlRequest { comm_type: 0x01, node_id: None };

    let err = ctx
        .communication_ctrl(CommunicationCtrlType::VehicleManufacturerSpecific(0x40), &ctrl)
        .unwrap_err();
    assert_eq!(err, Nrc::SubFunctionNotSupported);

    ctx.communication_ctrl(CommunicationCtrlType::DisableRxAndEnableTx, &ctrl).unwrap();
    ctx.reset();
    assert_eq!(ctx.communication_ctrl_state(), CommunicationControlState::initial());
}

#[test]
fn io_ctrl_short_term_adjustment_updates_did_state() {
    let mut ctx = test_context();
    let did = 0x4101;

    let ctrl = IoCtrlRequest {
        did,
        param: IoCtrlParameter::ShortTermAdjustment,
        state: vec![0x00, 0x40],
        mask: vec![],
    };

    let resp = ctx.io_ctrl(&ctrl).unwrap();
    assert_eq!(resp.did, did);
    assert_eq!(resp.param, IoCtrlParameter::ShortTermAdjustment);
    assert_eq!(resp.state, vec![0x00, 0x40]);
    assert_eq!(ctx.get_static_did(did).unwrap(), vec![0x00, 0x40]);
}

#[test]
fn io_ctrl_rejects_control_enable_mask() {
    let mut ctx = test_context();

    let ctrl = IoCtrlRequest {
        did: 0x4101,
        param: IoCtrlParameter::ShortTermAdjustment,
        state: vec![0x00, 0x40],
        mask: vec![0xFF],
    };

    let err = ctx.io_ctrl(&ctrl).unwrap_err();
    assert_eq!(err, Nrc::RequestOutOfRange);
}

#[test]
fn io_ctrl_rejects_non_short_term_adjustment() {
    let mut ctx = test_context();

    let ctrl = IoCtrlRequest {
        did: 0x4101,
        param: IoCtrlParameter::ReturnControlToEcu,
        state: vec![],
        mask: vec![],
    };

    let err = ctx.io_ctrl(&ctrl).unwrap_err();
    assert_eq!(err, Nrc::RequestOutOfRange);
}

#[test]
fn routine_ctrl_start_then_request_results() {
    let mut ctx = test_context();

    let start = ctx
        .routine_ctrl(RoutineCtrlType::StartRoutine, CHECK_PROGRAMMING_DEPENDENCIES, &[])
        .unwrap();
    assert_eq!(start.routine_id, CHECK_PROGRAMMING_DEPENDENCIES);
    assert_eq!(start.routine_info, Some(0x00));
    assert_eq!(start.routine_status, vec![0x00]);

    let results = ctx
        .routine_ctrl(
            RoutineCtrlType::RequestRoutineResults,
            CHECK_PROGRAMMING_DEPENDENCIES,
            &[],
        )
        .unwrap();
    assert_eq!(results.routine_id, CHECK_PROGRAMMING_DEPENDENCIES);
    assert_eq!(results.routine_info, Some(0x00));
    assert_eq!(results.routine_status, vec![0x00]);
}

#[test]
fn routine_ctrl_requires_start_before_results() {
    let mut ctx = test_context();

    let err = ctx
        .routine_ctrl(
            RoutineCtrlType::RequestRoutineResults,
            CHECK_PROGRAMMING_DEPENDENCIES,
            &[],
        )
        .unwrap_err();
    assert_eq!(err, Nrc::RequestSequenceError);
}

#[test]
fn routine_ctrl_rejects_unsupported_subfunction_and_routine() {
    let mut ctx = test_context();

    let err = ctx
        .routine_ctrl(RoutineCtrlType::StopRoutine, CHECK_PROGRAMMING_DEPENDENCIES, &[])
        .unwrap_err();
    assert_eq!(err, Nrc::SubFunctionNotSupported);

    let err = ctx.routine_ctrl(RoutineCtrlType::StartRoutine, 0xFF02, &[]).unwrap_err();
    assert_eq!(err, Nrc::RequestOutOfRange);
}

#[test]
fn routine_ctrl_reset_clears_stored_results() {
    let mut ctx = test_context();
    ctx.routine_ctrl(RoutineCtrlType::StartRoutine, CHECK_PROGRAMMING_DEPENDENCIES, &[])
        .unwrap();

    ctx.reset();

    let err = ctx
        .routine_ctrl(
            RoutineCtrlType::RequestRoutineResults,
            CHECK_PROGRAMMING_DEPENDENCIES,
            &[],
        )
        .unwrap_err();
    assert_eq!(err, Nrc::RequestSequenceError);
}

#[test]
fn transfer_meta_records_download_and_upload() {
    let mut ctx = test_context();
    let dfi = 0x00;
    let mem_loc = sample_mem_loc(0x40);

    let resp = ctx.request_download(dfi, mem_loc).unwrap();
    assert_eq!(resp.max_num_of_block_len, 0x40);
    let meta = ctx.transfer_meta().unwrap();
    assert_eq!(meta.direction, TransferDirection::Download);
    assert_eq!(meta.dfi, dfi);
    assert_eq!(meta.mem_loc, mem_loc);
    assert_eq!(meta.next_sequence, 1);
    assert_eq!(meta.transferred, 0);

    let resp = ctx.request_upload(dfi, mem_loc).unwrap();
    assert_eq!(resp.max_num_of_block_len, 0x40);
    let meta = ctx.transfer_meta().unwrap();
    assert_eq!(meta.direction, TransferDirection::Upload);
    assert_eq!(meta.next_sequence, 1);
    assert_eq!(meta.transferred, 0);
}

#[test]
fn transfer_meta_rejects_non_default_dfi_and_zero_size() {
    let mut ctx = test_context();

    let err = ctx.request_download(0x11, sample_mem_loc(0x40)).unwrap_err();
    assert_eq!(err, Nrc::UploadDownloadNotAccepted);

    let zero_mem = iso14229_1::MemoryLocation::new(
        iso14229_1::AddressAndLengthFormatIdentifier::new(0x04, 0x04).unwrap(),
        0x0000_0001,
        0u128,
    );
    assert!(zero_mem.is_err());
}

#[test]
fn transfer_meta_reset_clears_active_transfer() {
    let mut ctx = test_context();
    ctx.request_download(0x00, sample_mem_loc(0x40)).unwrap();

    ctx.reset();

    assert!(ctx.transfer_meta().is_none());
}

#[test]
fn transfer_data_download_writes_memory_and_advances_state() {
    let mut ctx = test_context();
    let mem_loc = sample_mem_loc(4);
    ctx.request_download(0x00, mem_loc).unwrap();

    let resp = ctx.transfer_data(1, &[0x11, 0x22]).unwrap();
    assert_eq!(resp.sequence, 1);
    assert!(resp.data.is_empty());

    let resp = ctx.transfer_data(2, &[0x33, 0x44]).unwrap();
    assert_eq!(resp.sequence, 2);
    assert!(resp.data.is_empty());

    let stored = memory_of(&ctx, mem_loc).unwrap();
    assert_eq!(stored, vec![0x11, 0x22, 0x33, 0x44]);
    let meta = ctx.transfer_meta().unwrap();
    assert_eq!(meta.transferred, 4);
    assert_eq!(meta.next_sequence, 3);
}

#[test]
fn transfer_data_upload_reads_memory_and_advances_state() {
    let mut ctx = test_context();
    let mem_loc = sample_mem_loc(4);
    ctx.store_memory(mem_loc, vec![0xAA, 0xBB, 0xCC, 0xDD]);
    ctx.request_upload(0x00, mem_loc).unwrap();

    let resp = ctx.transfer_data(1, &[]).unwrap();
    assert_eq!(resp.sequence, 1);
    assert_eq!(resp.data, vec![0xAA, 0xBB, 0xCC, 0xDD]);

    let meta = ctx.transfer_meta().unwrap();
    assert_eq!(meta.transferred, 4);
    assert_eq!(meta.next_sequence, 2);
}

#[test]
fn transfer_data_rejects_missing_transfer_wrong_sequence_and_invalid_direction_payload() {
    let mut ctx = test_context();
    let upload_mem = sample_mem_loc(2);

    let err = ctx.transfer_data(1, &[0x11]).unwrap_err();
    assert_eq!(err, Nrc::RequestSequenceError);

    ctx.request_download(0x00, sample_mem_loc(2)).unwrap();
    let err = ctx.transfer_data(2, &[0x11]).unwrap_err();
    assert_eq!(err, Nrc::WrongBlockSequenceCounter);

    ctx.store_memory(upload_mem, vec![0x10, 0x20]);
    ctx.request_upload(0x00, upload_mem).unwrap();
    let err = ctx.transfer_data(1, &[0x11]).unwrap_err();
    assert_eq!(err, Nrc::RequestSequenceError);
}

#[test]
fn request_transfer_exit_requires_completed_transfer_and_clears_state() {
    let mut ctx = test_context();
    let mem_loc = sample_mem_loc(2);
    ctx.request_download(0x00, mem_loc).unwrap();

    let err = ctx.request_transfer_exit(&[0x99]).unwrap_err();
    assert_eq!(err, Nrc::RequestSequenceError);

    ctx.transfer_data(1, &[0x01, 0x02]).unwrap();
    let resp = ctx.request_transfer_exit(&[0x99]).unwrap();
    assert_eq!(resp, vec![0x99]);
    assert!(ctx.transfer_meta().is_none());
}

#[test]
fn access_timing_parameter_reads_sets_and_resets_active_timing() {
    let mut ctx = test_context();

    let read = ctx
        .access_timing_parameter(TimingParameterAccessType::ReadCurrentlyActiveTimingParameters, &[])
        .unwrap();
    let expected: Vec<u8> = iso14229_1::response::SessionTiming {
        p2: ctx.config.timing.p2,
        p2_star: ctx.config.timing.p2_star,
    }
    .into();
    assert_eq!(read, expected);

    let set = ctx
        .access_timing_parameter(
            TimingParameterAccessType::SetTimingParametersToGivenValues,
            &[0x00, 0x32, 0x00, 0x64],
        )
        .unwrap();
    assert!(set.is_empty());
    assert_eq!(ctx.get_active_timing(), SessionTiming { p2: 50, p2_star: 100 });

    let reset = ctx
        .access_timing_parameter(TimingParameterAccessType::SetTimingParametersToDefaultValues, &[])
        .unwrap();
    assert!(reset.is_empty());
    assert_eq!(ctx.get_active_timing(), ctx.config.timing);
}

#[test]
fn access_timing_parameter_rejects_unsupported_subfunction_and_invalid_values() {
    let mut ctx = test_context();

    let err = ctx
        .access_timing_parameter(TimingParameterAccessType::ReadExtendedTimingParameterSet, &[])
        .unwrap_err();
    assert_eq!(err, Nrc::SubFunctionNotSupported);

    let err = ctx
        .access_timing_parameter(
            TimingParameterAccessType::SetTimingParametersToGivenValues,
            &[0x00, 0x33, 0x00, 0x64],
        )
        .unwrap_err();
    assert_eq!(err, Nrc::RequestOutOfRange);

    let err = ctx
        .access_timing_parameter(
            TimingParameterAccessType::SetTimingParametersToGivenValues,
            &[0x00, 0x32, 0x01],
        )
        .unwrap_err();
    assert_eq!(err, Nrc::IncorrectMessageLengthOrInvalidFormat);
}
