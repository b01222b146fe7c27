use docan_rs::config::Configuration;
use docan_rs::nrc::Nrc;
use docan_rs::server::context::{
    CommunicationCtrlType, IoCtrlParameter, Context, MemoryLocation, RoutineCtrlType, TimingParameterAccessType,
    CHECK_PROGRAMMING_DEPENDENCIES,
};
use docan_rs::server::dispatch::{classify_incoming, Incoming};
use docan_rs::server::dtc::DtcRecord;
use docan_rs::server::request::UdsRequest;
use docan_rs::server::service::{
    access_timing_parameter_reply, authentication_reply, bytes_eq, clear_diagnostic_info_reply,
    communication_ctrl_reply, ctrl_dtc_setting_reply, io_ctrl_reply, request_download_reply,
    request_transfer_exit_reply, write_did_reply, ecu_reset_reply, link_ctrl_reply, read_data_by_pid_reply, read_did_reply,
    read_dtc_info_reply, request_file_transfer_reply, routine_ctrl_reply,
    security_access_request, security_access_seed_reply, security_access_take_seed,
    security_access_verify, session_ctrl_reply, tester_present_reply, transfer_data_reply,
    write_mem_by_addr_reply, AlgoOutcome, AuthResponse, Payload, Reply,
    SecurityStep, SubFunc,
};
use docan_rs::server::session::{SessionState, SessionType};
use docan_rs::server::{Address, ByteOrder, Config, SessionTiming};

fn config() -> Config {
    let mut cfg = Configuration::new();
    cfg.did.insert(0x4101, 2);
    Config {
        address: Address { tx_id: 0x7E0, rx_id: 0x7E8, fid: 0x7DF },
        timing: SessionTiming::max_timing(),
        extend_sa_level: 3,
        program_sa_level: 5,
        seed_len: 4,
        sa_salt: vec![1, 2, 3, 4],
        cfg,
        did_sa_level: Default::default(),
        byte_order: ByteOrder::Little,
    }
}

/// A request as the server reads it from its bytes.
fn parse(bytes: &[u8]) -> UdsRequest {
    match classify_incoming(bytes, &Configuration::new()) {
        Incoming::Request(r) => r,
        other => panic!("not a request: {:?}", other),
    }
}

/// A request written by its parts, for what the crate would not read.
fn uds(service: u8, sub_func: Option<(u8, bool)>, data: Vec<u8>) -> UdsRequest {
    UdsRequest { service, sub_func, data }
}

fn positive_bytes(reply: &Reply) -> (Option<u8>, Vec<u8>) {
    match reply {
        Reply::Positive { sub_func, payload: Payload::Bytes(d) } => (*sub_func, d.clone()),
        other => panic!("expected a positive answer with bytes, got {:?}", other),
    }
}

fn negative(reply: &Reply) -> Nrc {
    match reply {
        Reply::Negative(code) => *code,
        other => panic!("expected a negative answer, got {:?}", other),
    }
}

fn session_in(t: SessionType) -> SessionState {
    let mut s = SessionState::new();
    s.change(t);
    s
}

#[test]
fn session_ctrl_answers_with_the_timing_bytes() {
    let mut session = SessionState::new();
    let timing = SessionTiming { p2: 0x0032, p2_star: 0x01F4 };
    let (reply, keep) = session_ctrl_reply(&mut session, &parse(&[0x10, 0x03]), timing);
    assert_eq!(positive_bytes(&reply), (Some(0x03), vec![0x00, 0x32, 0x01, 0xF4]));
    assert!(keep);
    assert_eq!(session.get_session_type(), SessionType::Extended);

    let (reply, keep) = session_ctrl_reply(&mut session, &parse(&[0x10, 0x81]), timing);
    assert!(matches!(reply, Reply::Suppressed));
    assert!(!keep);
    assert_eq!(session.get_session_type(), SessionType::Default);

    let (reply, _) = session_ctrl_reply(&mut session, &uds(0x10, None, vec![]), timing);
    assert_eq!(negative(&reply), Nrc::GeneralReject);
    let (reply, _) = session_ctrl_reply(&mut session, &uds(0x10, Some((0x00, false)), vec![]), timing);
    assert_eq!(negative(&reply), Nrc::IncorrectMessageLengthOrInvalidFormat);
    assert_eq!(session.get_session_type(), SessionType::Default);
}

#[test]
fn malformed_requests_are_answered_by_their_error() {
    let cfg = Configuration::new();
    // no session type at all: a wrong length
    match classify_incoming(&[0x10], &cfg) {
        Incoming::Malformed { service, code } => {
            assert_eq!(service, 0x10);
            assert_eq!(code, Nrc::IncorrectMessageLengthOrInvalidFormat);
        }
        other => panic!("unexpected {:?}", other),
    }
    // a DTC setting that the crate does not build a request for
    match classify_incoming(&[0x85, 0x40], &cfg) {
        Incoming::Malformed { service, code } => {
            assert_eq!(service, 0x85);
            assert_eq!(code, Nrc::GeneralReject);
        }
        other => panic!("unexpected {:?}", other),
    }
}

#[test]
fn ecu_reset_restores_power_up_state() {
    let mut ctx = Context::new(config());
    let mut session = session_in(SessionType::Extended);
    session.set_security_access_level(3);
    ctx.routine_ctrl(RoutineCtrlType::StartRoutine, CHECK_PROGRAMMING_DEPENDENCIES, &[]).unwrap();

    let reply = ecu_reset_reply(&mut ctx, &mut session, &parse(&[0x11, 0x04]));
    assert_eq!(positive_bytes(&reply), (Some(0x04), vec![1]));
    assert_eq!(session, SessionState::new());
    let err = ctx
        .routine_ctrl(RoutineCtrlType::RequestRoutineResults, CHECK_PROGRAMMING_DEPENDENCIES, &[])
        .unwrap_err();
    assert_eq!(err, Nrc::RequestSequenceError);

    let reply = ecu_reset_reply(&mut ctx, &mut session, &parse(&[0x11, 0x01]));
    assert_eq!(positive_bytes(&reply), (Some(0x01), vec![]));
    let reply = ecu_reset_reply(&mut ctx, &mut session, &parse(&[0x11, 0x81]));
    assert!(matches!(reply, Reply::Suppressed));
    let reply = ecu_reset_reply(&mut ctx, &mut session, &uds(0x11, Some((0x00, false)), vec![]));
    assert_eq!(negative(&reply), Nrc::SubFunctionNotSupported);
    let reply = ecu_reset_reply(&mut ctx, &mut session, &uds(0x11, None, vec![]));
    assert_eq!(negative(&reply), Nrc::IncorrectMessageLengthOrInvalidFormat);
}

#[test]
fn security_access_seed_then_key_unlocks_level() {
    let mut ctx = Context::new(config());
    let mut session = session_in(SessionType::Extended);

    match security_access_request(&parse(&[0x27, 0x03])) {
        SecurityStep::SendSeed { level } => assert_eq!(level, 0x03),
        other => panic!("unexpected step {:?}", other),
    }
    let reply = security_access_seed_reply(&mut ctx, 0x03, vec![0x11, 0x22]);
    assert_eq!(positive_bytes(&reply), (Some(0x03), vec![0x11, 0x22]));

    let key_request = parse(&[0x27, 0x04, 0xAB]);
    match security_access_request(&key_request) {
        SecurityStep::CheckKey { level } => assert_eq!(level, 0x04),
        other => panic!("unexpected step {:?}", other),
    }
    let (seed_level, seed) = security_access_take_seed(&mut ctx, 0x04).unwrap();
    assert_eq!((seed_level, seed.clone()), (0x03, vec![0x11, 0x22]));
    let reply = security_access_verify(
        &mut session,
        seed_level,
        0x04,
        AlgoOutcome::Key(vec![0xAB]),
        &key_request.data,
    );
    assert_eq!(positive_bytes(&reply), (Some(0x04), vec![]));
    assert_eq!(session.get_security_access_level(), 0x03);

    // the seed was used up
    let err = security_access_take_seed(&mut ctx, 0x04).unwrap_err();
    assert_eq!(negative(&err), Nrc::SubFunctionNotSupported);
}

#[test]
fn security_access_refusals() {
    let mut ctx = Context::new(config());
    let mut session = SessionState::new();

    let reply = security_access_seed_reply(&mut ctx, 0x01, vec![]);
    assert_eq!(negative(&reply), Nrc::GeneralReject);

    security_access_seed_reply(&mut ctx, 0x01, vec![0x01]);
    let err = security_access_take_seed(&mut ctx, 0x04).unwrap_err();
    assert_eq!(negative(&err), Nrc::ConditionsNotCorrect);

    let reply = security_access_verify(&mut session, 1, 2, AlgoOutcome::Key(vec![1]), &[2]);
    assert_eq!(negative(&reply), Nrc::InvalidKey);
    assert_eq!(session.get_security_access_level(), 0);
    let reply = security_access_verify(&mut session, 1, 2, AlgoOutcome::NoAlgorithm, &[2]);
    assert_eq!(negative(&reply), Nrc::ConditionsNotCorrect);
    let reply = security_access_verify(&mut session, 1, 2, AlgoOutcome::Failed, &[2]);
    assert_eq!(negative(&reply), Nrc::GeneralReject);
    let reply = security_access_verify(&mut session, 1, 2, AlgoOutcome::Denied, &[2]);
    assert_eq!(negative(&reply), Nrc::SecurityAccessDenied);

    match security_access_request(&uds(0x27, None, vec![])) {
        SecurityStep::Answer(r) => assert_eq!(negative(&r), Nrc::IncorrectMessageLengthOrInvalidFormat),
        other => panic!("unexpected step {:?}", other),
    }
    // the crate keeps 0x81 as the level itself, which is out of range
    match security_access_request(&parse(&[0x27, 0x81])) {
        SecurityStep::Answer(r) => assert_eq!(negative(&r), Nrc::SubFunctionNotSupported),
        other => panic!("unexpected step {:?}", other),
    }
}

#[test]
fn bytes_eq_compares_contents() {
    assert!(bytes_eq(&[1, 2, 3], &[1, 2, 3]));
    assert!(!bytes_eq(&[1, 2, 3], &[1, 2, 4]));
    assert!(!bytes_eq(&[1, 2], &[1, 2, 3]));
    assert!(bytes_eq(&[], &[]));
}

#[test]
fn ctrl_dtc_setting_reply_needs_non_default_session() {
    let mut ctx = Context::new(config());
    let off = parse(&[0x85, 0x02]);
    let reply = ctrl_dtc_setting_reply(&mut ctx, SessionType::Default, &off);
    assert_eq!(negative(&reply), Nrc::ServiceNotSupportedInActiveSession);
    assert!(ctx.dtc_setting_enabled());

    let reply = ctrl_dtc_setting_reply(&mut ctx, SessionType::Extended, &off);
    assert_eq!(positive_bytes(&reply), (Some(0x02), vec![]));
    assert!(!ctx.dtc_setting_enabled());

    let reply = ctrl_dtc_setting_reply(&mut ctx, SessionType::Extended, &parse(&[0x85, 0x81]));
    assert!(matches!(reply, Reply::Suppressed));
    assert!(ctx.dtc_setting_enabled());

    let with_data = uds(0x85, Some((0x01, false)), vec![0x00]);
    let reply = ctrl_dtc_setting_reply(&mut ctx, SessionType::Extended, &with_data);
    assert_eq!(negative(&reply), Nrc::IncorrectMessageLengthOrInvalidFormat);
    let reply = ctrl_dtc_setting_reply(&mut ctx, SessionType::Extended, &uds(0x85, None, vec![]));
    assert_eq!(negative(&reply), Nrc::IncorrectMessageLengthOrInvalidFormat);
    assert!(ctx.dtc_setting_enabled());
}

#[test]
fn link_ctrl_transition_needs_a_verification() {
    let mut session = session_in(SessionType::Programming);
    let transition = parse(&[0x87, 0x03]);
    let reply = link_ctrl_reply(&mut session, &transition);
    assert_eq!(negative(&reply), Nrc::RequestSequenceError);

    let reply = link_ctrl_reply(&mut session, &parse(&[0x87, 0x01, 0x12]));
    assert_eq!(positive_bytes(&reply), (Some(0x01), vec![]));
    let reply = link_ctrl_reply(&mut session, &transition);
    assert_eq!(positive_bytes(&reply), (Some(0x03), vec![]));
    // used up
    let reply = link_ctrl_reply(&mut session, &transition);
    assert_eq!(negative(&reply), Nrc::RequestSequenceError);

    let reply = link_ctrl_reply(&mut session, &parse(&[0x87, 0x40, 0x01]));
    assert_eq!(negative(&reply), Nrc::SubFunctionNotSupported);

    let mut default = SessionState::new();
    let reply = link_ctrl_reply(&mut default, &transition);
    assert_eq!(negative(&reply), Nrc::ServiceNotSupportedInActiveSession);
}

#[test]
fn routine_and_timing_replies_follow_the_context() {
    let mut ctx = Context::new(config());
    let start = parse(&[0x31, 0x01, 0xFF, 0x01]);
    let reply = routine_ctrl_reply(&mut ctx, SessionType::Extended, &start);
    match reply {
        Reply::Positive { sub_func, payload: Payload::Routine(r) } => {
            assert_eq!(sub_func, Some(0x01));
            assert_eq!(r.routine_id, CHECK_PROGRAMMING_DEPENDENCIES);
            assert_eq!(r.routine_info, Some(0x00));
            assert_eq!(r.routine_status, vec![0x00]);
        }
        other => panic!("unexpected answer {:?}", other),
    }
    let reply = routine_ctrl_reply(&mut ctx, SessionType::Default, &start);
    assert_eq!(negative(&reply), Nrc::ServiceNotSupportedInActiveSession);
    let reply = routine_ctrl_reply(&mut ctx, SessionType::Extended, &parse(&[0x31, 0x01, 0xFF, 0x02]));
    assert_eq!(negative(&reply), Nrc::RequestOutOfRange);
    let reply = routine_ctrl_reply(&mut ctx, SessionType::Extended, &uds(0x31, Some((0x01, false)), vec![0xFF]));
    assert_eq!(negative(&reply), Nrc::IncorrectMessageLengthOrInvalidFormat);

    let sf = |function| Some(SubFunc { function, suppress_positive: false });
    let reply = access_timing_parameter_reply(
        &mut ctx,
        SessionType::Extended,
        sf(0x03),
        Ok(vec![]),
        Ok(TimingParameterAccessType::ReadCurrentlyActiveTimingParameters),
    );
    assert_eq!(positive_bytes(&reply), (Some(0x03), vec![0x00, 0x32, 0x01, 0xF4]));
    let reply = access_timing_parameter_reply(
        &mut ctx,
        SessionType::Extended,
        sf(0x04),
        Ok(vec![0x00, 0x10, 0x00, 0x20]),
        Ok(TimingParameterAccessType::SetTimingParametersToGivenValues),
    );
    assert_eq!(positive_bytes(&reply), (Some(0x04), vec![]));
    assert_eq!(ctx.get_active_timing(), SessionTiming { p2: 0x10, p2_star: 0x20 });
}

#[test]
fn tester_present_keeps_non_default_sessions_alive() {
    let (reply, keep) = tester_present_reply(SessionType::Extended, &parse(&[0x3E, 0x00]));
    assert_eq!(positive_bytes(&reply), (Some(0x00), vec![]));
    assert!(keep);
    let (reply, keep) = tester_present_reply(SessionType::Default, &parse(&[0x3E, 0x80]));
    assert!(matches!(reply, Reply::Suppressed));
    assert!(!keep);
    let (reply, keep) = tester_present_reply(SessionType::Extended, &uds(0x3E, Some((0x01, false)), vec![]));
    assert_eq!(negative(&reply), Nrc::SubFunctionNotSupported);
    assert!(!keep);
    let (reply, _) = tester_present_reply(SessionType::Extended, &uds(0x3E, None, vec![]));
    assert_eq!(negative(&reply), Nrc::GeneralReject);
}

#[test]
fn transfer_data_reply_writes_the_download() {
    let mut ctx = Context::new(config());
    let loc = MemoryLocation { alfi: 0x44, mem_addr: 0x10, mem_size: 2 };
    ctx.request_download(0x00, loc).unwrap();
    let reply = transfer_data_reply(&mut ctx, SessionType::Programming, &parse(&[0x36, 0x01, 7, 8]));
    match reply {
        Reply::Positive { sub_func: None, payload: Payload::Transfer(r) } => {
            assert_eq!(r.sequence, 1);
            assert!(r.data.is_empty());
        }
        other => panic!("unexpected answer {:?}", other),
    }
    let reply = transfer_data_reply(&mut ctx, SessionType::Programming, &parse(&[0x36, 0x03, 9]));
    assert_eq!(negative(&reply), Nrc::WrongBlockSequenceCounter);
    let reply = transfer_data_reply(&mut ctx, SessionType::Default, &parse(&[0x36, 0x02, 9]));
    assert_eq!(negative(&reply), Nrc::ServiceNotSupportedInActiveSession);
    let reply = transfer_data_reply(&mut ctx, SessionType::Programming, &uds(0x36, None, vec![]));
    assert_eq!(negative(&reply), Nrc::IncorrectMessageLengthOrInvalidFormat);
}

#[test]
fn write_mem_by_addr_needs_extended_session_and_level() {
    let ctx = Context::new(config());
    let request = parse(&[0x3D, 0x44, 0x00, 0x00, 0x00, 0x10, 0x00, 0x00, 0x00, 0x02, 0xAA, 0xBB]);
    let loc = MemoryLocation { alfi: 0x44, mem_addr: 0x10, mem_size: 2 };
    let mut session = session_in(SessionType::Extended);
    let reply = write_mem_by_addr_reply(&ctx, &session, &request);
    assert_eq!(negative(&reply), Nrc::SecurityAccessDenied);
    session.set_security_access_level(3);
    match write_mem_by_addr_reply(&ctx, &session, &request) {
        Reply::Positive { sub_func: None, payload: Payload::Memory(m) } => assert_eq!(m, loc),
        other => panic!("unexpected answer {:?}", other),
    }
    let reply = write_mem_by_addr_reply(&ctx, &SessionState::new(), &request);
    assert_eq!(negative(&reply), Nrc::ServiceNotSupportedInActiveSession);
    let reply = write_mem_by_addr_reply(&ctx, &session, &uds(0x3D, None, vec![0x44]));
    assert_eq!(negative(&reply), Nrc::IncorrectMessageLengthOrInvalidFormat);
}

#[test]
fn read_did_reply_lists_identifier_and_value() {
    let mut ctx = Context::new(config());
    assert!(ctx.set_static_did(0x4101, &[0x12, 0x34]));
    let reply = read_did_reply(&ctx, &SessionState::new(), &parse(&[0x22, 0x41, 0x01]));
    assert_eq!(positive_bytes(&reply), (None, vec![0x41, 0x01, 0x12, 0x34]));
    let reply = read_did_reply(&ctx, &SessionState::new(), &parse(&[0x22, 0x41, 0x01, 0x99, 0x99]));
    assert_eq!(negative(&reply), Nrc::RequestOutOfRange);
    let reply = read_did_reply(&ctx, &SessionState::new(), &uds(0x22, None, vec![0x41]));
    assert_eq!(negative(&reply), Nrc::IncorrectMessageLengthOrInvalidFormat);
}

#[test]
fn unsupported_services_answer_by_session() {
    let pid = parse(&[0x2A, 0x01, 0x05]);
    assert_eq!(negative(&read_data_by_pid_reply(SessionType::Default, &pid)), Nrc::ServiceNotSupportedInActiveSession);
    assert_eq!(negative(&read_data_by_pid_reply(SessionType::Extended, &pid)), Nrc::ServiceNotSupported);
    assert_eq!(
        negative(&read_data_by_pid_reply(SessionType::Extended, &uds(0x2A, None, vec![0x09, 0x05]))),
        Nrc::IncorrectMessageLengthOrInvalidFormat
    );
    assert_eq!(negative(&request_file_transfer_reply(SessionType::Default)), Nrc::ServiceNotSupportedInActiveSession);
    assert_eq!(negative(&request_file_transfer_reply(SessionType::Programming)), Nrc::ServiceNotSupported);
}

#[test]
fn read_dtc_info_reply_reports_stored_dtcs() {
    let mut ctx = Context::new(config());
    ctx.replace_dtcs(vec![DtcRecord {
        dtc: 0x010203,
        status: 0x09,
        severity: 0x20,
        func_unit: 0x01,
        fault_counter: 1,
        permanent: false,
        ext_data: vec![],
        mirror: false,
        emissions_obd: false,
        wwh_obd: None,
    }]);
    let request = parse(&[0x19, 0x01, 0x01]);
    let reply = read_dtc_info_reply(&ctx, &request);
    match reply {
        Reply::Positive { sub_func, payload: Payload::Dtc(d) } => {
            assert_eq!(sub_func, Some(0x01));
            match d {
                docan_rs::server::dtc::DtcInfoResponse::ReportNumberOfDTCByStatusMask { avl_mask, count, .. } => {
                    assert_eq!(avl_mask, 0x09);
                    assert_eq!(count, 1);
                }
                other => panic!("unexpected report {:?}", other),
            }
        }
        other => panic!("unexpected answer {:?}", other),
    }
    let reply = read_dtc_info_reply(&ctx, &parse(&[0x19, 0x8A]));
    assert!(matches!(reply, Reply::Suppressed));
    let reply = read_dtc_info_reply(&ctx, &uds(0x19, Some((0x01, false)), vec![0x01, 0x02]));
    assert_eq!(negative(&reply), Nrc::IncorrectMessageLengthOrInvalidFormat);
    let reply = read_dtc_info_reply(&ctx, &uds(0x19, Some((0x0F, false)), vec![0x01]));
    assert_eq!(negative(&reply), Nrc::IncorrectMessageLengthOrInvalidFormat);
    let reply = read_dtc_info_reply(&ctx, &uds(0x19, Some((0x09, false)), vec![0x01, 0x02, 0x03]));
    match reply {
        Reply::Positive { sub_func, payload: Payload::Dtc(d) } => {
            assert_eq!(sub_func, Some(0x09));
            match d {
                docan_rs::server::dtc::DtcInfoResponse::ReportSeverityInformationOfDTC { avl_mask, records } => {
                    assert_eq!(avl_mask, 0x09);
                    assert_eq!(records.len(), 1);
                }
                other => panic!("unexpected report {:?}", other),
            }
        }
        other => panic!("unexpected answer {:?}", other),
    }
}

#[test]
fn authentication_echoes_the_request() {
    let mut bytes = vec![0x29, 0x05, 0x01];
    bytes.extend_from_slice(&[5u8; 16]);
    let request = parse(&bytes);
    let reply = authentication_reply(&request);
    match reply {
        Reply::Positive { sub_func, payload: Payload::Auth(AuthResponse::RequestChallengeForAuthentication { value, algo_indicator, challenge, additional }) } => {
            assert_eq!(sub_func, Some(0x05));
            assert_eq!(value, 0x00);
            assert_eq!(algo_indicator, vec![5; 16]);
            assert!(challenge.is_empty());
            assert!(additional.is_empty());
        }
        other => panic!("unexpected answer {:?}", other),
    }
    let reply = authentication_reply(&uds(0x29, Some((0x80, true)), vec![]));
    assert_eq!(negative(&reply), Nrc::SubFunctionNotSupported);
    let reply = authentication_reply(&uds(0x29, Some((0x09, false)), vec![]));
    assert_eq!(negative(&reply), Nrc::GeneralReject);
    let reply = authentication_reply(&uds(0x29, Some((0x01, false)), vec![0x01, 0x00]));
    assert_eq!(negative(&reply), Nrc::GeneralReject);
    // certificate [0xAA, 0xBB], challenge [0xCC]: both are echoed.
    let reply = authentication_reply(&uds(
        0x29,
        Some((0x01, false)),
        vec![0x07, 0x00, 0x02, 0xAA, 0xBB, 0x00, 0x01, 0xCC],
    ));
    match reply {
        Reply::Positive { payload: Payload::Auth(AuthResponse::VerifyCertificateUnidirectional { value, challenge, ephemeral_public_key }), .. } => {
            assert_eq!(value, 0x00);
            assert_eq!(challenge, vec![0xAA, 0xBB]);
            assert_eq!(ephemeral_public_key, vec![0xCC]);
        }
        other => panic!("unexpected answer {:?}", other),
    }
    // An empty certificate is refused.
    let reply = authentication_reply(&uds(
        0x29,
        Some((0x01, false)),
        vec![0x07, 0x00, 0x00, 0x00, 0x01, 0xCC],
    ));
    assert_eq!(negative(&reply), Nrc::GeneralReject);
}

#[test]
fn write_did_reply_writes_the_record() {
    let mut ctx = Context::new(config());
    let reply = write_did_reply(&mut ctx, &uds(0x2E, None, vec![0x41, 0x01, 0xAB, 0xCD]));
    assert_eq!(positive_bytes(&reply), (None, vec![0x41, 0x01]));
    assert_eq!(ctx.get_static_did(0x4101), Some(vec![0xAB, 0xCD]));
    // An identifier without a configured length is not read.
    let reply = write_did_reply(&mut ctx, &uds(0x2E, None, vec![0x41, 0x02, 0xAB, 0xCD]));
    assert_eq!(negative(&reply), Nrc::IncorrectMessageLengthOrInvalidFormat);
    assert_eq!(ctx.get_static_did(0x4101), Some(vec![0xAB, 0xCD]));
}

#[test]
fn io_ctrl_reply_adjusts_the_identifier() {
    let mut ctx = Context::new(config());
    let reply = io_ctrl_reply(&mut ctx, &uds(0x2F, None, vec![0x41, 0x01, 0x03, 0x11, 0x22]));
    match reply {
        Reply::Positive { sub_func: None, payload: Payload::IoCtrl(r) } => {
            assert_eq!(r.did, 0x4101);
            assert_eq!(r.param, IoCtrlParameter::ShortTermAdjustment);
            assert_eq!(r.state, vec![0x11, 0x22]);
        }
        other => panic!("unexpected answer {:?}", other),
    }
    assert_eq!(ctx.get_static_did(0x4101), Some(vec![0x11, 0x22]));
    // With an enable mask the adjustment is refused.
    let reply = io_ctrl_reply(&mut ctx, &uds(0x2F, None, vec![0x41, 0x01, 0x03, 0x33, 0x44, 0xFF]));
    assert_eq!(negative(&reply), Nrc::RequestOutOfRange);
    assert_eq!(ctx.get_static_did(0x4101), Some(vec![0x11, 0x22]));
    // Too short a control state is not read.
    let reply = io_ctrl_reply(&mut ctx, &uds(0x2F, None, vec![0x41, 0x01, 0x03, 0x11]));
    assert_eq!(negative(&reply), Nrc::IncorrectMessageLengthOrInvalidFormat);
}

#[test]
fn communication_ctrl_reply_records_the_control() {
    let mut ctx = Context::new(config());
    let reply = communication_ctrl_reply(&mut ctx, &uds(0x28, Some((0x03, false)), vec![0x01]));
    assert_eq!(positive_bytes(&reply), (Some(0x03), vec![]));
    let state = ctx.communication_ctrl_state();
    assert_eq!(state.ctrl_type, CommunicationCtrlType::DisableRxAndTx);
    assert_eq!(state.comm_type, 0x01);
    let reply = communication_ctrl_reply(&mut ctx, &uds(0x28, Some((0x80, true)), vec![0x02]));
    assert!(matches!(reply, Reply::Suppressed));
    assert_eq!(ctx.communication_ctrl_state().ctrl_type, CommunicationCtrlType::EnableRxAndTx);
}

#[test]
fn clear_diagnostic_info_reply_clears_all_dtcs() {
    let mut ctx = Context::new(config());
    ctx.replace_dtcs(vec![DtcRecord {
        dtc: 0x010203,
        status: 0x09,
        severity: 0x20,
        func_unit: 0x01,
        fault_counter: 1,
        permanent: false,
        ext_data: vec![],
        mirror: false,
        emissions_obd: false,
        wwh_obd: None,
    }]);
    let reply = clear_diagnostic_info_reply(&mut ctx, &uds(0x14, None, vec![0x00, 0x00, 0x01]));
    assert_eq!(negative(&reply), Nrc::RequestOutOfRange);
    assert_eq!(ctx.dtc_records().len(), 1);
    let reply = clear_diagnostic_info_reply(&mut ctx, &uds(0x14, None, vec![0xFF, 0xFF, 0xFF, 0x01]));
    assert_eq!(negative(&reply), Nrc::RequestOutOfRange);
    let reply = clear_diagnostic_info_reply(&mut ctx, &uds(0x14, None, vec![0xFF, 0xFF]));
    assert_eq!(negative(&reply), Nrc::IncorrectMessageLengthOrInvalidFormat);
    let reply = clear_diagnostic_info_reply(&mut ctx, &uds(0x14, None, vec![0xFF, 0xFF, 0xFF]));
    assert_eq!(positive_bytes(&reply), (None, vec![]));
    assert!(ctx.dtc_records().is_empty());
}

#[test]
fn transfer_requests_read_their_bytes() {
    let mut ctx = Context::new(config());
    let reply = request_transfer_exit_reply(&mut ctx, &uds(0x37, None, vec![0x01]));
    assert_eq!(negative(&reply), Nrc::RequestSequenceError);
    let reply = request_download_reply(&mut ctx, &uds(0x34, None, vec![0x00]));
    assert_eq!(negative(&reply), Nrc::IncorrectMessageLengthOrInvalidFormat);
}
