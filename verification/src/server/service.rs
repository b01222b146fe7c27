//! What the server answers to each diagnostic service, given the request
//! as the ISO 14229-1 crate reads it, the session and the server state.
use vstd::prelude::*;

use super::context::{
    did_fits, start_transfer_step, transfer_exit_step, CommunicationControlState,
    CommunicationCtrlRequest,
    CommunicationCtrlType, IoCtrlParameter, IoCtrlRequest, TransferDirection, ALL_DTC_GROUP,
    read_did_answer, routine_step, routine_view, timing_step, transfer_step, Context, ContextView,
    DtcSettingType, IoCtrlResponse, MemoryLocation, RequestLoadResponse, RoutineCtrlResponse,
    TimingParameterAccessType, TransferDataResponse,
};
use super::dtc::{build_read_dtc_response, dtc_report, DtcInfoRequest, DtcInfoResponse};
use super::dispatch::UdsErrorKind;
use super::request::{
    communication_ctrl_type_of, io_ctrl_parameter_of, spec_communication_ctrl_type,
    spec_io_ctrl_parameter, dtc_setting_type_of, ecu_reset_type_of, link_ctrl_type_of, req_dtc_setting_type,
    req_ecu_reset_type, req_function_within, req_link_ctrl_type, req_routine_ctrl_type,
    req_security_level, req_session_type, routine_ctrl_type_of, security_level_of,
    session_type_of, sub_func_byte, sub_func_of, function_opt, UdsRequest, UdsRequestView,
};
use super::request_data::{auth_request_from, dtc_info_request_from, spec_auth_request, spec_dtc_info_request};
use super::uds_codec::{
    clear_diagnostic_info_request, clear_diagnostic_info_request_of, communication_ctrl_request,
    communication_ctrl_request_of, io_ctrl_request, io_ctrl_request_of, request_download_request,
    request_download_request_of, request_upload_request, request_upload_request_of,
    transfer_exit_request, transfer_exit_request_of, write_did_request, write_did_request_of,
    authentication_accepts, authentication_data_ok, read_dtc_info_accepts, read_dtc_info_data_ok,
    ctrl_dtc_setting_accepts, ctrl_dtc_setting_data_ok, link_ctrl_accepts, link_ctrl_data_ok,
    read_data_by_pid_accepts, read_data_by_pid_data_ok, read_did_request, read_did_request_of,
    routine_ctrl_request, routine_ctrl_request_of, transfer_data_request,
    transfer_data_request_of, write_mem_request, write_mem_request_of,
};
use super::session::{SessionState, SessionType};
use super::SessionTiming;
use crate::nrc::Nrc;

verus! {

/// A request's sub-function byte, split into the function and the
/// suppress-positive-response bit.
#[derive(Debug, Clone, Copy, PartialEq, Eq, Structural)]
pub struct SubFunc {
    pub function: u8,
    pub suppress_positive: bool,
}

/// An Authentication (0x29) request, with each data field as its bytes.
#[derive(Debug, Clone)]
#[allow(inconsistent_fields)]
pub enum AuthRequest {
    DeAuthenticate,
    VerifyCertificateUnidirectional { config: u8, certificate: Vec<u8>, challenge: Vec<u8> },
    VerifyCertificateBidirectional { config: u8, certificate: Vec<u8>, challenge: Vec<u8> },
    ProofOfOwnership { proof_of_ownership: Vec<u8>, ephemeral_public_key: Vec<u8> },
    TransmitCertificate { cert_evaluation_id: u16, certificate: Vec<u8> },
    RequestChallengeForAuthentication { config: u8, algo_indicator: Vec<u8> },
    VerifyProofOfOwnershipUnidirectional {
        algo_indicator: Vec<u8>,
        proof_of_ownership: Vec<u8>,
        challenge: Vec<u8>,
        additional: Vec<u8>,
    },
    VerifyProofOfOwnershipBidirectional {
        algo_indicator: Vec<u8>,
        proof_of_ownership: Vec<u8>,
        challenge: Vec<u8>,
        additional: Vec<u8>,
    },
    AuthenticationConfiguration,
}

/// The mathematical value of an [`AuthRequest`].
pub enum AuthRequestView {
    DeAuthenticate,
    VerifyCertificateUnidirectional { config: u8, certificate: Seq<u8>, challenge: Seq<u8> },
    VerifyCertificateBidirectional { config: u8, certificate: Seq<u8>, challenge: Seq<u8> },
    ProofOfOwnership { proof_of_ownership: Seq<u8>, ephemeral_public_key: Seq<u8> },
    TransmitCertificate { cert_evaluation_id: u16, certificate: Seq<u8> },
    RequestChallengeForAuthentication { config: u8, algo_indicator: Seq<u8> },
    VerifyProofOfOwnershipUnidirectional {
        algo_indicator: Seq<u8>,
        proof_of_ownership: Seq<u8>,
        challenge: Seq<u8>,
        additional: Seq<u8>,
    },
    VerifyProofOfOwnershipBidirectional {
        algo_indicator: Seq<u8>,
        proof_of_ownership: Seq<u8>,
        challenge: Seq<u8>,
        additional: Seq<u8>,
    },
    AuthenticationConfiguration,
}

impl View for AuthRequest {
    type V = AuthRequestView;

    open spec fn view(&self) -> AuthRequestView {
        match self {
            AuthRequest::DeAuthenticate => AuthRequestView::DeAuthenticate,
            AuthRequest::VerifyCertificateUnidirectional { config, certificate, challenge } =>
                AuthRequestView::VerifyCertificateUnidirectional {
                config: *config,
                certificate: certificate@,
                challenge: challenge@,
            },
            AuthRequest::VerifyCertificateBidirectional { config, certificate, challenge } =>
                AuthRequestView::VerifyCertificateBidirectional {
                config: *config,
                certificate: certificate@,
                challenge: challenge@,
            },
            AuthRequest::ProofOfOwnership { proof_of_ownership, ephemeral_public_key } =>
                AuthRequestView::ProofOfOwnership {
                proof_of_ownership: proof_of_ownership@,
                ephemeral_public_key: ephemeral_public_key@,
            },
            AuthRequest::TransmitCertificate { cert_evaluation_id, certificate } =>
                AuthRequestView::TransmitCertificate {
                cert_evaluation_id: *cert_evaluation_id,
                certificate: certificate@,
            },
            AuthRequest::RequestChallengeForAuthentication { config, algo_indicator } =>
                AuthRequestView::RequestChallengeForAuthentication {
                config: *config,
                algo_indicator: algo_indicator@,
            },
            AuthRequest::VerifyProofOfOwnershipUnidirectional {
                algo_indicator,
                proof_of_ownership,
                challenge,
                additional,
            } => AuthRequestView::VerifyProofOfOwnershipUnidirectional {
                algo_indicator: algo_indicator@,
                proof_of_ownership: proof_of_ownership@,
                challenge: challenge@,
                additional: additional@,
            },
            AuthRequest::VerifyProofOfOwnershipBidirectional {
                algo_indicator,
                proof_of_ownership,
                challenge,
                additional,
            } => AuthRequestView::VerifyProofOfOwnershipBidirectional {
                algo_indicator: algo_indicator@,
                proof_of_ownership: proof_of_ownership@,
                challenge: challenge@,
                additional: additional@,
            },
            AuthRequest::AuthenticationConfiguration => AuthRequestView::AuthenticationConfiguration,
        }
    }
}

/// The authenticationReturnParameter "request accepted".
pub const AUTH_REQUEST_ACCEPTED: u8 = 0x00;

/// An Authentication answer, with each data field as its bytes and the
/// return parameter as its byte.
#[derive(Debug, Clone)]
#[allow(inconsistent_fields)]
pub enum AuthResponse {
    DeAuthenticate(u8),
    VerifyCertificateUnidirectional { value: u8, challenge: Vec<u8>, ephemeral_public_key: Vec<u8> },
    VerifyCertificateBidirectional {
        value: u8,
        challenge: Vec<u8>,
        certificate: Vec<u8>,
        proof_of_ownership: Vec<u8>,
        ephemeral_public_key: Vec<u8>,
    },
    ProofOfOwnership { value: u8, session_keyinfo: Vec<u8> },
    TransmitCertificate(u8),
    RequestChallengeForAuthentication {
        value: u8,
        algo_indicator: Vec<u8>,
        challenge: Vec<u8>,
        additional: Vec<u8>,
    },
    VerifyProofOfOwnershipUnidirectional { value: u8, algo_indicator: Vec<u8>, session_keyinfo: Vec<u8> },
    VerifyProofOfOwnershipBidirectional {
        value: u8,
        algo_indicator: Vec<u8>,
        proof_of_ownership: Vec<u8>,
        session_keyinfo: Vec<u8>,
    },
    AuthenticationConfiguration(u8),
}

/// The mathematical value of an [`AuthResponse`].
#[allow(inconsistent_fields)]
pub enum AuthResponseView {
    DeAuthenticate(u8),
    VerifyCertificateUnidirectional { value: u8, challenge: Seq<u8>, ephemeral_public_key: Seq<u8> },
    VerifyCertificateBidirectional {
        value: u8,
        challenge: Seq<u8>,
        certificate: Seq<u8>,
        proof_of_ownership: Seq<u8>,
        ephemeral_public_key: Seq<u8>,
    },
    ProofOfOwnership { value: u8, session_keyinfo: Seq<u8> },
    TransmitCertificate(u8),
    RequestChallengeForAuthentication {
        value: u8,
        algo_indicator: Seq<u8>,
        challenge: Seq<u8>,
        additional: Seq<u8>,
    },
    VerifyProofOfOwnershipUnidirectional { value: u8, algo_indicator: Seq<u8>, session_keyinfo: Seq<u8> },
    VerifyProofOfOwnershipBidirectional {
        value: u8,
        algo_indicator: Seq<u8>,
        proof_of_ownership: Seq<u8>,
        session_keyinfo: Seq<u8>,
    },
    AuthenticationConfiguration(u8),
}

impl View for AuthResponse {
    type V = AuthResponseView;

    open spec fn view(&self) -> AuthResponseView {
        match *self {
            AuthResponse::DeAuthenticate(v) => AuthResponseView::DeAuthenticate(v),
            AuthResponse::VerifyCertificateUnidirectional { value, challenge, ephemeral_public_key } => {
                AuthResponseView::VerifyCertificateUnidirectional {
                    value,
                    challenge: challenge@,
                    ephemeral_public_key: ephemeral_public_key@,
                }
            },
            AuthResponse::VerifyCertificateBidirectional {
                value,
                challenge,
                certificate,
                proof_of_ownership,
                ephemeral_public_key,
            } => AuthResponseView::VerifyCertificateBidirectional {
                value,
                challenge: challenge@,
                certificate: certificate@,
                proof_of_ownership: proof_of_ownership@,
                ephemeral_public_key: ephemeral_public_key@,
            },
            AuthResponse::ProofOfOwnership { value, session_keyinfo } => {
                AuthResponseView::ProofOfOwnership { value, session_keyinfo: session_keyinfo@ }
            },
            AuthResponse::TransmitCertificate(v) => AuthResponseView::TransmitCertificate(v),
            AuthResponse::RequestChallengeForAuthentication {
                value,
                algo_indicator,
                challenge,
                additional,
            } => AuthResponseView::RequestChallengeForAuthentication {
                value,
                algo_indicator: algo_indicator@,
                challenge: challenge@,
                additional: additional@,
            },
            AuthResponse::VerifyProofOfOwnershipUnidirectional {
                value,
                algo_indicator,
                session_keyinfo,
            } => AuthResponseView::VerifyProofOfOwnershipUnidirectional {
                value,
                algo_indicator: algo_indicator@,
                session_keyinfo: session_keyinfo@,
            },
            AuthResponse::VerifyProofOfOwnershipBidirectional {
                value,
                algo_indicator,
                proof_of_ownership,
                session_keyinfo,
            } => AuthResponseView::VerifyProofOfOwnershipBidirectional {
                value,
                algo_indicator: algo_indicator@,
                proof_of_ownership: proof_of_ownership@,
                session_keyinfo: session_keyinfo@,
            },
            AuthResponse::AuthenticationConfiguration(v) => {
                AuthResponseView::AuthenticationConfiguration(v)
            },
        }
    }
}

/// What a positive response carries.
#[derive(Debug, Clone)]
pub enum Payload {
    Bytes(Vec<u8>),
    Routine(RoutineCtrlResponse),
    Memory(MemoryLocation),
    Dtc(DtcInfoResponse),
    Auth(AuthResponse),
    Transfer(TransferDataResponse),
    Load(RequestLoadResponse),
    IoCtrl(IoCtrlResponse),
}

/// The server's answer to one request.
#[derive(Debug, Clone)]
pub enum Reply {
    Positive { sub_func: Option<u8>, payload: Payload },
    Negative(Nrc),
    /// A positive answer that the client asked not to get.
    Suppressed,
}

/// A positive answer with raw bytes.
pub open spec fn positive_bytes(r: Reply, sub_func: Option<u8>, data: Seq<u8>) -> bool {
    r matches Reply::Positive { sub_func: s, payload: Payload::Bytes(d) } && s == sub_func && d@
        == data
}

pub open spec fn is_negative(r: Reply, code: Nrc) -> bool {
    r matches Reply::Negative(c) && c == code
}

/// The reset types of ECUReset (0x11).
#[derive(Debug, Clone, Copy, PartialEq, Eq, Structural)]
pub enum EcuResetType {
    HardReset,
    KeyOffOnReset,
    SoftReset,
    EnableRapidPowerShutDown,
    DisableRapidPowerShutDown,
    VehicleManufacturerSpecific(u8),
    SystemSupplierSpecific(u8),
    Reserved(u8),
}

/// The sub-functions of LinkControl (0x87).
#[derive(Debug, Clone, Copy, PartialEq, Eq, Structural)]
pub enum LinkCtrlType {
    VerifyModeTransitionWithFixedParameter,
    VerifyModeTransitionWithSpecificParameter,
    TransitionMode,
    VehicleManufacturerSpecific(u8),
    SystemSupplierSpecific(u8),
    Reserved(u8),
}

/// DiagnosticSessionControl (0x10): enters the requested session and
/// answers with the timing in force. The second result says whether the
/// session's timeout is to be restarted (any session but the default one).
pub fn session_ctrl_reply(
    session: &mut SessionState,
    req: &UdsRequest,
    timing: SessionTiming,
) -> (out: (Reply, bool))
    ensures
        ({
            let sub_func = sub_func_of(req@);
            let session_type = req_session_type(req@);
            match sub_func {
            None => is_negative(out.0, Nrc::GeneralReject) && !out.1 && *final(session) == *old(session),
            Some(sf) => match session_type {
                Err(_) => is_negative(out.0, Nrc::IncorrectMessageLengthOrInvalidFormat) && !out.1
                    && *final(session) == *old(session),
                Ok(t) => {
                    &&& *final(session) == (SessionState { session_type: t, ..*old(session) })
                    &&& out.1 == (t != SessionType::Default)
                    &&& if sf.suppress_positive {
                        out.0 is Suppressed
                    } else {
                        positive_bytes(
                            out.0,
                            Some(sf.function),
                            super::uds_codec::timing_bytes(timing),
                        )
                    }
                },
            },
            }
        }),
{
    let sub_func = req.sub_function();
    let session_type = match req.function() {
        Some(f) => session_type_of(f),
        None => Err(()),
    };
    match sub_func {
        None => (Reply::Negative(Nrc::GeneralReject), false),
        Some(sf) => match session_type {
            Err(_) => (Reply::Negative(Nrc::IncorrectMessageLengthOrInvalidFormat), false),
            Ok(t) => {
                session.change(t);
                let keep = t != SessionType::Default;
                if sf.suppress_positive {
                    (Reply::Suppressed, keep)
                } else {
                    let data = super::uds_codec::session_timing_to_bytes(timing);
                    (
                        Reply::Positive { sub_func: Some(sf.function), payload: Payload::Bytes(data) },
                        keep,
                    )
                }
            },
        },
    }
}

/// ECUReset (0x11): resets the server state and the session, and answers
/// with the power-down time (1 s) for EnableRapidPowerShutDown.
pub fn ecu_reset_reply(
    ctx: &mut Context,
    session: &mut SessionState,
    req: &UdsRequest,
) -> (reply: Reply)
    requires
        old(ctx).wf(),
    ensures
        final(ctx).wf(),
        ({
            let sub_func = sub_func_of(req@);
            let reset_type = req_ecu_reset_type(req@);
            match sub_func {
            None => is_negative(reply, Nrc::IncorrectMessageLengthOrInvalidFormat) && final(ctx)@
                == old(ctx)@ && *final(session) == *old(session),
            Some(sf) => match reset_type {
                Err(_) => is_negative(reply, Nrc::SubFunctionNotSupported) && final(ctx)@ == old(ctx)@ && *final(session) == *old(session),
                Ok(t) => {
                    &&& final(ctx)@ == super::context::reset_view(old(ctx)@)
                    &&& *final(session) == SessionState::initial()
                    &&& if sf.suppress_positive {
                        reply is Suppressed
                    } else {
                        positive_bytes(
                            reply,
                            Some(sf.function),
                            if t == EcuResetType::EnableRapidPowerShutDown {
                                seq![1u8]
                            } else {
                                Seq::empty()
                            },
                        )
                    }
                },
            },
            }
        }),
{
    let sub_func = req.sub_function();
    let reset_type = match req.function() {
        Some(f) => ecu_reset_type_of(f),
        None => Err(()),
    };
    match sub_func {
        None => Reply::Negative(Nrc::IncorrectMessageLengthOrInvalidFormat),
        Some(sf) => match reset_type {
            Err(_) => Reply::Negative(Nrc::SubFunctionNotSupported),
            Ok(t) => {
                ctx.reset();
                session.reset();
                if sf.suppress_positive {
                    Reply::Suppressed
                } else {
                    let data: Vec<u8> = if t == EcuResetType::EnableRapidPowerShutDown {
                        vec![1]
                    } else {
                        Vec::new()
                    };
                    assert(data@ =~= (if t == EcuResetType::EnableRapidPowerShutDown {
                        seq![1u8]
                    } else {
                        Seq::empty()
                    }));
                    Reply::Positive { sub_func: Some(sf.function), payload: Payload::Bytes(data) }
                }
            },
        },
    }
}


/// Which way a SecurityAccess (0x27) request goes on.
#[derive(Debug, Clone)]
pub enum SecurityStep {
    Answer(Reply),
    /// An odd level: send a new seed for it.
    SendSeed { level: u8 },
    /// An even level: check the key for the seed of the level below.
    CheckKey { level: u8 },
}

/// SecurityAccess, first step: odd levels ask for a seed, even levels send
/// a key.
pub fn security_access_request(req: &UdsRequest) -> (step: SecurityStep)
    ensures
        ({
            let sub_func = sub_func_of(req@);
            let level = req_security_level(req@);
            match sub_func {
            None => step matches SecurityStep::Answer(r) && is_negative(
                r,
                Nrc::IncorrectMessageLengthOrInvalidFormat,
            ),
            Some(_) => match level {
                Err(_) => step matches SecurityStep::Answer(r) && is_negative(
                    r,
                    Nrc::SubFunctionNotSupported,
                ),
                Ok(l) => if l % 2 == 1 {
                    step == SecurityStep::SendSeed { level: l }
                } else {
                    step == SecurityStep::CheckKey { level: l }
                },
            },
            }
        }),
{
    let sub_func = req.sub_function();
    let level = match req.function() {
        Some(f) => security_level_of(f),
        None => Err(()),
    };
    match sub_func {
        None => SecurityStep::Answer(Reply::Negative(Nrc::IncorrectMessageLengthOrInvalidFormat)),
        Some(_) => match level {
            Err(_) => SecurityStep::Answer(Reply::Negative(Nrc::SubFunctionNotSupported)),
            Ok(l) => if l % 2 == 1 {
                SecurityStep::SendSeed { level: l }
            } else {
                SecurityStep::CheckKey { level: l }
            },
        },
    }
}

/// What the security algorithm gave for a seed.
#[derive(Debug, Clone)]
pub enum AlgoOutcome {
    /// No algorithm was installed.
    NoAlgorithm,
    /// The algorithm failed.
    Failed,
    /// The algorithm refused to compute a key.
    Denied,
    Key(Vec<u8>),
}

/// SecurityAccess, last step: compares the client's key with the key that
/// the algorithm computed for the seed of level `seed_level`, and unlocks
/// that level when they agree.
pub fn security_access_verify(
    session: &mut SessionState,
    seed_level: u8,
    response_level: u8,
    outcome: AlgoOutcome,
    key: &[u8],
) -> (reply: Reply)
    ensures
        match outcome {
            AlgoOutcome::NoAlgorithm => is_negative(reply, Nrc::ConditionsNotCorrect) && *final(session) == *old(session),
            AlgoOutcome::Failed => is_negative(reply, Nrc::GeneralReject) && *final(session)
                == *old(session),
            AlgoOutcome::Denied => is_negative(reply, Nrc::SecurityAccessDenied) && *final(session)
                == *old(session),
            AlgoOutcome::Key(k) => if k@ == key@ {
                positive_bytes(reply, Some(response_level), Seq::empty()) && *final(session) == (
                SessionState { security_access_level: seed_level, ..*old(session) })
            } else {
                is_negative(reply, Nrc::InvalidKey) && *final(session) == *old(session)
            },
        },
{
    match outcome {
        AlgoOutcome::NoAlgorithm => Reply::Negative(Nrc::ConditionsNotCorrect),
        AlgoOutcome::Failed => Reply::Negative(Nrc::GeneralReject),
        AlgoOutcome::Denied => Reply::Negative(Nrc::SecurityAccessDenied),
        AlgoOutcome::Key(k) => {
            if !bytes_eq(k.as_slice(), key) {
                Reply::Negative(Nrc::InvalidKey)
            } else {
                session.set_security_access_level(seed_level);
                let empty: Vec<u8> = Vec::new();
                Reply::Positive { sub_func: Some(response_level), payload: Payload::Bytes(empty) }
            }
        },
    }
}

/// Whether two byte strings are equal.
pub fn bytes_eq(a: &[u8], b: &[u8]) -> (eq: bool)
    ensures
        eq == (a@ == b@),
{
    if a.len() != b.len() {
        return false;
    }
    for i in 0..a.len()
        invariant
            a.len() == b.len(),
            forall|k: int| 0 <= k < i ==> a@[k] == b@[k],
    {
        if a[i] != b[i] {
            return false;
        }
    }
    assert(a@ =~= b@);
    true
}

/// ControlDTCSetting (0x85), outside the default session only.
pub fn ctrl_dtc_setting_reply(
    ctx: &mut Context,
    session_type: SessionType,
    req: &UdsRequest,
) -> (reply: Reply)
    requires
        old(ctx).wf(),
    ensures
        final(ctx).wf(),
        ({
            let sub_func = sub_func_of(req@);
            let data_ok = ctrl_dtc_setting_accepts(sub_func_byte(req@), req@.data);
            let setting = req_dtc_setting_type(req@);
            if session_type == SessionType::Default {
            is_negative(reply, Nrc::ServiceNotSupportedInActiveSession) && final(ctx)@ == old(ctx)@
        } else {
            match sub_func {
                None => is_negative(reply, Nrc::IncorrectMessageLengthOrInvalidFormat) && final(ctx)@ == old(ctx)@,
                Some(sf) => if !data_ok {
                    is_negative(reply, Nrc::IncorrectMessageLengthOrInvalidFormat) && final(ctx)@
                        == old(ctx)@
                } else {
                    match setting {
                        Err(_) => is_negative(reply, Nrc::SubFunctionNotSupported) && final(ctx)@
                            == old(ctx)@,
                        Ok(DtcSettingType::On) => final(ctx)@ == (ContextView {
                            dtc_setting_enabled: true,
                            ..old(ctx)@
                        }) && (if sf.suppress_positive {
                            reply is Suppressed
                        } else {
                            positive_bytes(reply, Some(sf.function), Seq::empty())
                        }),
                        Ok(DtcSettingType::Off) => final(ctx)@ == (ContextView {
                            dtc_setting_enabled: false,
                            ..old(ctx)@
                        }) && (if sf.suppress_positive {
                            reply is Suppressed
                        } else {
                            positive_bytes(reply, Some(sf.function), Seq::empty())
                        }),
                        Ok(_) => is_negative(reply, Nrc::SubFunctionNotSupported) && final(ctx)@
                            == old(ctx)@,
                    }
                },
            }
            }
        }),
{
    if session_type == SessionType::Default {
        return Reply::Negative(Nrc::ServiceNotSupportedInActiveSession);
    }
    let sub_func = req.sub_function();
    let data_ok = ctrl_dtc_setting_data_ok(req.sub_func_byte(), req.data.as_slice());
    let setting = match req.function() {
        Some(f) => dtc_setting_type_of(f),
        None => Err(()),
    };
    match sub_func {
        None => Reply::Negative(Nrc::IncorrectMessageLengthOrInvalidFormat),
        Some(sf) => {
            if !data_ok {
                return Reply::Negative(Nrc::IncorrectMessageLengthOrInvalidFormat);
            }
            match setting {
                Err(_) => Reply::Negative(Nrc::SubFunctionNotSupported),
                Ok(t) => match ctx.set_dtc_setting(t) {
                    Ok(_) => if sf.suppress_positive {
                        Reply::Suppressed
                    } else {
                        Reply::Positive {
                            sub_func: Some(sf.function),
                            payload: Payload::Bytes(Vec::new()),
                        }
                    },
                    Err(code) => Reply::Negative(code),
                },
            }
        },
    }
}

/// LinkControl (0x87), outside the default session only: a verification
/// arms the transition, which a later TransitionMode uses up.
pub fn link_ctrl_reply(
    session: &mut SessionState,
    req: &UdsRequest,
) -> (reply: Reply)
    ensures
        ({
            let sub_func = sub_func_of(req@);
            let data_ok = link_ctrl_accepts(sub_func_byte(req@), req@.data);
            let link_type = req_link_ctrl_type(req@);
            if old(session).session_type == SessionType::Default {
            is_negative(reply, Nrc::ServiceNotSupportedInActiveSession) && *final(session) == *old(session)
        } else {
            match sub_func {
                None => is_negative(reply, Nrc::IncorrectMessageLengthOrInvalidFormat) && *final(session) == *old(session),
                Some(sf) => if !data_ok || link_type is Err {
                    is_negative(reply, Nrc::IncorrectMessageLengthOrInvalidFormat) && *final(session) == *old(session)
                } else {
                    match link_type->Ok_0 {
                        LinkCtrlType::VerifyModeTransitionWithFixedParameter
                        | LinkCtrlType::VerifyModeTransitionWithSpecificParameter => *final(session)
                            == (SessionState { link_control_armed: true, ..*old(session) }) && (
                        if sf.suppress_positive {
                            reply is Suppressed
                        } else {
                            positive_bytes(reply, Some(sf.function), Seq::empty())
                        }),
                        LinkCtrlType::TransitionMode => *final(session) == (SessionState {
                            link_control_armed: false,
                            ..*old(session)
                        }) && (if !old(session).link_control_armed {
                            is_negative(reply, Nrc::RequestSequenceError)
                        } else if sf.suppress_positive {
                            reply is Suppressed
                        } else {
                            positive_bytes(reply, Some(0x03), Seq::empty())
                        }),
                        _ => is_negative(reply, Nrc::SubFunctionNotSupported) && *final(session)
                            == *old(session),
                    }
                },
            }
            }
        }),
{
    if session.session_type == SessionType::Default {
        return Reply::Negative(Nrc::ServiceNotSupportedInActiveSession);
    }
    let sub_func = req.sub_function();
    let data_ok = link_ctrl_data_ok(req.sub_func_byte(), req.data.as_slice());
    let link_type = match req.function() {
        Some(f) => link_ctrl_type_of(f),
        None => Err(()),
    };
    match sub_func {
        None => Reply::Negative(Nrc::IncorrectMessageLengthOrInvalidFormat),
        Some(sf) => {
            if !data_ok {
                return Reply::Negative(Nrc::IncorrectMessageLengthOrInvalidFormat);
            }
            match link_type {
                Err(_) => Reply::Negative(Nrc::IncorrectMessageLengthOrInvalidFormat),
                Ok(LinkCtrlType::VerifyModeTransitionWithFixedParameter)
                | Ok(LinkCtrlType::VerifyModeTransitionWithSpecificParameter) => {
                    session.arm_link_control_verify();
                    if sf.suppress_positive {
                        Reply::Suppressed
                    } else {
                        Reply::Positive {
                            sub_func: Some(sf.function),
                            payload: Payload::Bytes(Vec::new()),
                        }
                    }
                },
                Ok(LinkCtrlType::TransitionMode) => {
                    if !session.consume_link_control_verify() {
                        Reply::Negative(Nrc::RequestSequenceError)
                    } else if sf.suppress_positive {
                        Reply::Suppressed
                    } else {
                        Reply::Positive { sub_func: Some(0x03), payload: Payload::Bytes(Vec::new()) }
                    }
                },
                Ok(_) => Reply::Negative(Nrc::SubFunctionNotSupported),
            }
        },
    }
}

/// RoutineControl (0x31), outside the default session only.
pub fn routine_ctrl_reply(
    ctx: &mut Context,
    session_type: SessionType,
    req: &UdsRequest,
) -> (reply: Reply)
    requires
        old(ctx).wf(),
    ensures
        final(ctx).wf(),
        ({
            let request = routine_ctrl_request_of(sub_func_byte(req@), req@.data);
            let sub_func = sub_func_of(req@);
            let routine_type = req_routine_ctrl_type(req@);
            if session_type == SessionType::Default {
            is_negative(reply, Nrc::ServiceNotSupportedInActiveSession) && final(ctx)@ == old(ctx)@
        } else if request is Err || sub_func is None {
            is_negative(reply, Nrc::IncorrectMessageLengthOrInvalidFormat) && final(ctx)@ == old(ctx)@
        } else if routine_type is Err {
            is_negative(reply, Nrc::SubFunctionNotSupported) && final(ctx)@ == old(ctx)@
        } else {
            let (id, record) = request->Ok_0;
            let step = routine_step(old(ctx)@, routine_type->Ok_0, id, record);
            &&& final(ctx)@ == step.1
            &&& match step.0 {
                Ok(r) => if sub_func->Some_0.suppress_positive {
                    reply is Suppressed
                } else {
                    reply matches Reply::Positive { sub_func: s, payload: Payload::Routine(x) } && s
                        == Some(sub_func->Some_0.function) && routine_view(Ok(x)) == Ok::<
                        (u16, Option<u8>, Seq<u8>),
                        Nrc,
                    >(r)
                },
                Err(code) => is_negative(reply, code),
            }
            }
        }),
{
    if session_type == SessionType::Default {
        return Reply::Negative(Nrc::ServiceNotSupportedInActiveSession);
    }
    let request = routine_ctrl_request(req.sub_func_byte(), req.data.as_slice());
    let sub_func = req.sub_function();
    let routine_type = match req.function() {
        Some(f) => routine_ctrl_type_of(f),
        None => Err(()),
    };
    let (id, record) = match request {
        Ok(r) => r,
        Err(_) => return Reply::Negative(Nrc::IncorrectMessageLengthOrInvalidFormat),
    };
    let sf = match sub_func {
        Some(sf) => sf,
        None => return Reply::Negative(Nrc::IncorrectMessageLengthOrInvalidFormat),
    };
    let t = match routine_type {
        Ok(t) => t,
        Err(_) => return Reply::Negative(Nrc::SubFunctionNotSupported),
    };
    match ctx.routine_ctrl(t, id, record.as_slice()) {
        Ok(result) => if sf.suppress_positive {
            Reply::Suppressed
        } else {
            Reply::Positive { sub_func: Some(sf.function), payload: Payload::Routine(result) }
        },
        Err(code) => Reply::Negative(code),
    }
}

/// AccessTimingParameter (0x83), outside the default session only.
pub fn access_timing_parameter_reply(
    ctx: &mut Context,
    session_type: SessionType,
    sub_func: Option<SubFunc>,
    data: Result<Vec<u8>, ()>,
    access_type: Result<TimingParameterAccessType, ()>,
) -> (reply: Reply)
    requires
        old(ctx).wf(),
    ensures
        final(ctx).wf(),
        if session_type == SessionType::Default {
            is_negative(reply, Nrc::ServiceNotSupportedInActiveSession) && final(ctx)@ == old(ctx)@
        } else if sub_func is None || data is Err {
            is_negative(reply, Nrc::IncorrectMessageLengthOrInvalidFormat) && final(ctx)@ == old(ctx)@
        } else if access_type is Err {
            is_negative(reply, Nrc::SubFunctionNotSupported) && final(ctx)@ == old(ctx)@
        } else {
            let step = timing_step(old(ctx)@, access_type->Ok_0, data->Ok_0@);
            &&& final(ctx)@ == step.1
            &&& match step.0 {
                Ok(d) => if sub_func->Some_0.suppress_positive {
                    reply is Suppressed
                } else {
                    positive_bytes(reply, Some(sub_func->Some_0.function), d)
                },
                Err(code) => is_negative(reply, code),
            }
        },
{
    if session_type == SessionType::Default {
        return Reply::Negative(Nrc::ServiceNotSupportedInActiveSession);
    }
    let sf = match sub_func {
        Some(sf) => sf,
        None => return Reply::Negative(Nrc::IncorrectMessageLengthOrInvalidFormat),
    };
    let data = match data {
        Ok(d) => d,
        Err(_) => return Reply::Negative(Nrc::IncorrectMessageLengthOrInvalidFormat),
    };
    let t = match access_type {
        Ok(t) => t,
        Err(_) => return Reply::Negative(Nrc::SubFunctionNotSupported),
    };
    match ctx.access_timing_parameter(t, data.as_slice()) {
        Ok(v) => if sf.suppress_positive {
            Reply::Suppressed
        } else {
            Reply::Positive { sub_func: Some(sf.function), payload: Payload::Bytes(v) }
        },
        Err(code) => Reply::Negative(code),
    }
}

/// TesterPresent (0x3E). The second result says whether the session's
/// timeout is to be restarted (outside the default session).
pub fn tester_present_reply(session_type: SessionType, req: &UdsRequest) -> (out: (Reply, bool))
    ensures
        ({
            let sub_func = sub_func_of(req@);
            let type_ok = req_function_within(req@, 0x00);
            match sub_func {
            None => is_negative(out.0, Nrc::GeneralReject) && !out.1,
            Some(sf) => if sf.suppress_positive {
                out.0 is Suppressed && out.1 == (session_type != SessionType::Default)
            } else if !type_ok {
                is_negative(out.0, Nrc::SubFunctionNotSupported) && !out.1
            } else {
                positive_bytes(out.0, Some(sf.function), Seq::empty()) && out.1 == (session_type
                    != SessionType::Default)
            },
            }
        }),
{
    let sub_func = req.sub_function();
    let type_ok = match req.function() {
        Some(f) => f <= 0x00,
        None => false,
    };
    match sub_func {
        None => (Reply::Negative(Nrc::GeneralReject), false),
        Some(sf) => {
            let keep = session_type != SessionType::Default;
            if sf.suppress_positive {
                (Reply::Suppressed, keep)
            } else if !type_ok {
                (Reply::Negative(Nrc::SubFunctionNotSupported), false)
            } else {
                (
                    Reply::Positive { sub_func: Some(sf.function), payload: Payload::Bytes(Vec::new()) },
                    keep,
                )
            }
        },
    }
}

/// TransferData (0x36), outside the default session only.
pub fn transfer_data_reply(
    ctx: &mut Context,
    session_type: SessionType,
    req: &UdsRequest,
) -> (reply: Reply)
    requires
        old(ctx).wf(),
    ensures
        final(ctx).wf(),
        if session_type == SessionType::Default {
            is_negative(reply, Nrc::ServiceNotSupportedInActiveSession) && final(ctx)@ == old(ctx)@
        } else {
            match transfer_data_request_of(sub_func_byte(req@), req@.data) {
                Err(_) => is_negative(reply, Nrc::IncorrectMessageLengthOrInvalidFormat) && final(ctx)@ == old(ctx)@,
                Ok((sequence, data)) => {
                    let step = transfer_step(old(ctx)@, sequence, data);
                    &&& final(ctx)@ == step.1
                    &&& match step.0 {
                        Ok((s, d)) => reply matches Reply::Positive {
                            sub_func: None,
                            payload: Payload::Transfer(r),
                        } && r.sequence == s && r.data@ == d,
                        Err(code) => is_negative(reply, code),
                    }
                },
            }
        },
{
    if session_type == SessionType::Default {
        return Reply::Negative(Nrc::ServiceNotSupportedInActiveSession);
    }
    match transfer_data_request(req.sub_func_byte(), req.data.as_slice()) {
        Err(_) => Reply::Negative(Nrc::IncorrectMessageLengthOrInvalidFormat),
        Ok((sequence, data)) => match ctx.transfer_data(sequence, data.as_slice()) {
            Ok(r) => Reply::Positive { sub_func: None, payload: Payload::Transfer(r) },
            Err(code) => Reply::Negative(code),
        },
    }
}

/// WriteMemoryByAddress (0x3D): only in the extended session, with the
/// security level that the configuration asks for; the answer echoes the
/// memory area.
pub fn write_mem_by_addr_reply(
    ctx: &Context,
    session: &SessionState,
    req: &UdsRequest,
) -> (reply: Reply)
    ensures
        if session.session_type != SessionType::Extended {
            is_negative(reply, Nrc::ServiceNotSupportedInActiveSession)
        } else if ctx@.config.extend_sa_level != session.security_access_level {
            is_negative(reply, Nrc::SecurityAccessDenied)
        } else {
            match write_mem_request_of(sub_func_byte(req@), req@.data) {
                Err(_) => is_negative(reply, Nrc::IncorrectMessageLengthOrInvalidFormat),
                Ok((alfi, mem_addr, mem_size)) => reply matches Reply::Positive {
                    sub_func: None,
                    payload: Payload::Memory(m),
                } && m == (MemoryLocation { alfi, mem_addr, mem_size }),
            }
        },
{
    match session.session_type {
        SessionType::Extended => {
            if ctx.config.extend_sa_level != session.security_access_level {
                Reply::Negative(Nrc::SecurityAccessDenied)
            } else {
                match write_mem_request(req.sub_func_byte(), req.data.as_slice()) {
                    Ok((alfi, mem_addr, mem_size)) => Reply::Positive {
                        sub_func: None,
                        payload: Payload::Memory(MemoryLocation { alfi, mem_addr, mem_size }),
                    },
                    Err(_) => Reply::Negative(Nrc::IncorrectMessageLengthOrInvalidFormat),
                }
            }
        },
        _ => Reply::Negative(Nrc::ServiceNotSupportedInActiveSession),
    }
}

/// ReadDataByIdentifier (0x22): the identifiers and values, read with the
/// session's security level.
pub fn read_did_reply(ctx: &Context, session: &SessionState, req: &UdsRequest) -> (reply: Reply)
    ensures
        match read_did_request_of(sub_func_byte(req@), req@.data) {
            Err(_) => is_negative(reply, Nrc::IncorrectMessageLengthOrInvalidFormat),
            Ok(dids) => match read_did_answer(ctx@, dids, session.security_access_level) {
                Ok(d) => positive_bytes(reply, None, d),
                Err(code) => is_negative(reply, code),
            },
        },
{
    match read_did_request(req.sub_func_byte(), req.data.as_slice()) {
        Err(_) => Reply::Negative(Nrc::IncorrectMessageLengthOrInvalidFormat),
        Ok(dids) => match ctx.read_did(dids.as_slice(), session.security_access_level) {
            Ok(d) => Reply::Positive { sub_func: None, payload: Payload::Bytes(d) },
            Err(code) => Reply::Negative(code),
        },
    }
}

/// ReadDataByPeriodicIdentifier (0x2A): not supported outside the default
/// session, not allowed in it.
pub fn read_data_by_pid_reply(session_type: SessionType, req: &UdsRequest) -> (reply: Reply)
    ensures
        if session_type == SessionType::Default {
            is_negative(reply, Nrc::ServiceNotSupportedInActiveSession)
        } else if read_data_by_pid_accepts(sub_func_byte(req@), req@.data) {
            is_negative(reply, Nrc::ServiceNotSupported)
        } else {
            is_negative(reply, Nrc::IncorrectMessageLengthOrInvalidFormat)
        },
{
    if session_type == SessionType::Default {
        Reply::Negative(Nrc::ServiceNotSupportedInActiveSession)
    } else if read_data_by_pid_data_ok(req.sub_func_byte(), req.data.as_slice()) {
        Reply::Negative(Nrc::ServiceNotSupported)
    } else {
        Reply::Negative(Nrc::IncorrectMessageLengthOrInvalidFormat)
    }
}

/// RequestFileTransfer (0x38): not supported.
pub fn request_file_transfer_reply(session_type: SessionType) -> (reply: Reply)
    ensures
        if session_type == SessionType::Default {
            is_negative(reply, Nrc::ServiceNotSupportedInActiveSession)
        } else {
            is_negative(reply, Nrc::ServiceNotSupported)
        },
{
    if session_type == SessionType::Default {
        Reply::Negative(Nrc::ServiceNotSupportedInActiveSession)
    } else {
        Reply::Negative(Nrc::ServiceNotSupported)
    }
}

/// The report that a ReadDTCInformation request asks for: none where the
/// ISO 14229-1 crate does not read the request, else the parameters at
/// their places in the data.
pub open spec fn req_dtc_info_request(r: UdsRequestView) -> Result<DtcInfoRequest, ()> {
    if read_dtc_info_accepts(sub_func_byte(r), r.data) {
        match function_opt(r) {
            Some(f) => spec_dtc_info_request(f, r.data),
            None => Err(()),
        }
    } else {
        Err(())
    }
}

/// ReadDTCInformation (0x19): the report over the stored DTCs that the
/// request asks for.
pub fn read_dtc_info_reply(ctx: &Context, uds: &UdsRequest) -> (reply: Reply)
    ensures
        ({
            let sub_func = sub_func_of(uds@);
            match req_dtc_info_request(uds@) {
            Err(_) => is_negative(reply, Nrc::IncorrectMessageLengthOrInvalidFormat),
            Ok(req) => match sub_func {
                None => is_negative(reply, Nrc::IncorrectMessageLengthOrInvalidFormat),
                Some(sf) => match dtc_report(req, ctx@.dtcs, ctx@.config.cfg.dtc@) {
                    Ok(report) => if sf.suppress_positive {
                        reply is Suppressed
                    } else {
                        reply matches Reply::Positive { sub_func: s, payload: Payload::Dtc(d) } && s
                            == Some(sf.function) && d@ == report
                    },
                    Err(code) => is_negative(reply, code),
                },
            },
            }
        }),
{
    let sub_func = uds.sub_function();
    let request = if read_dtc_info_data_ok(uds.sub_func_byte(), uds.data.as_slice()) {
        match uds.function() {
            Some(f) => dtc_info_request_from(f, uds.data.as_slice()),
            None => Err(()),
        }
    } else {
        Err(())
    };
    match request {
        Err(_) => Reply::Negative(Nrc::IncorrectMessageLengthOrInvalidFormat),
        Ok(req) => match sub_func {
            None => Reply::Negative(Nrc::IncorrectMessageLengthOrInvalidFormat),
            Some(sf) => match build_read_dtc_response(req, ctx.dtcs.as_slice(), &ctx.config.cfg) {
                Ok(d) => if sf.suppress_positive {
                    Reply::Suppressed
                } else {
                    Reply::Positive { sub_func: Some(sf.function), payload: Payload::Dtc(d) }
                },
                Err(code) => Reply::Negative(code),
            },
        },
    }
}

/// SecurityAccess with an odd level: remembers `seed` for `level` and sends
/// it. The ISO 14229-1 crate builds no answer for an empty seed: that is
/// refused as a request that could not be handled, and nothing is
/// remembered.
pub fn security_access_seed_reply(ctx: &mut Context, level: u8, seed: Vec<u8>) -> (reply: Reply)
    requires
        old(ctx).wf(),
    ensures
        final(ctx).wf(),
        if level % 2 == 1 && seed@.len() == 0 {
            is_negative(reply, Nrc::GeneralReject) && final(ctx)@ == old(ctx)@
        } else {
            positive_bytes(reply, Some(level), seed@) && final(ctx)@ == (ContextView {
                sa_ctx: Some((level, seed@)),
                ..old(ctx)@
            })
        },
{
    if !super::uds_codec::security_access_response_ok(level, seed.as_slice()) {
        return Reply::Negative(super::dispatch::process_uds_error(UdsErrorKind::InvalidParam));
    }
    ctx.sa_ctx = Some((level, super::context::copy_bytes(&seed)));
    Reply::Positive { sub_func: Some(level), payload: Payload::Bytes(seed) }
}

/// SecurityAccess with an even level: uses up the remembered seed; it must
/// be the seed of the level just below.
pub fn security_access_take_seed(ctx: &mut Context, level: u8) -> (res: Result<(u8, Vec<u8>), Reply>)
    requires
        old(ctx).wf(),
        1 <= level,
    ensures
        final(ctx).wf(),
        final(ctx)@ == (ContextView { sa_ctx: None, ..old(ctx)@ }),
        match old(ctx)@.sa_ctx {
            None => res matches Err(r) && is_negative(r, Nrc::SubFunctionNotSupported),
            Some((l, seed)) => if level - 1 != l {
                res matches Err(r) && is_negative(r, Nrc::ConditionsNotCorrect)
            } else {
                res matches Ok((l2, s2)) && l2 == l && s2@ == seed
            },
        },
{
    let taken = ctx.sa_ctx.take();
    match taken {
        None => Err(Reply::Negative(Nrc::SubFunctionNotSupported)),
        Some((l, seed)) => {
            if level - 1 != l {
                Err(Reply::Negative(Nrc::ConditionsNotCorrect))
            } else {
                Ok((l, seed))
            }
        },
    }
}

pub open spec fn auth_answer(req: AuthRequestView) -> AuthResponseView {
    let ok = AUTH_REQUEST_ACCEPTED;
    match req {
        AuthRequestView::DeAuthenticate => AuthResponseView::DeAuthenticate(ok),
        AuthRequestView::VerifyCertificateUnidirectional { config, certificate, challenge } => {
            AuthResponseView::VerifyCertificateUnidirectional {
                value: ok,
                challenge: certificate,
                ephemeral_public_key: challenge,
            }
        },
        AuthRequestView::VerifyCertificateBidirectional { config, certificate, challenge } => {
            AuthResponseView::VerifyCertificateBidirectional {
                value: ok,
                challenge: challenge,
                certificate: certificate,
                proof_of_ownership: Seq::empty(),
                ephemeral_public_key: Seq::empty(),
            }
        },
        AuthRequestView::ProofOfOwnership { proof_of_ownership, ephemeral_public_key } => {
            AuthResponseView::ProofOfOwnership { value: ok, session_keyinfo: ephemeral_public_key }
        },
        AuthRequestView::TransmitCertificate { .. } => AuthResponseView::TransmitCertificate(ok),
        AuthRequestView::RequestChallengeForAuthentication { config, algo_indicator } => {
            AuthResponseView::RequestChallengeForAuthentication {
                value: ok,
                algo_indicator: algo_indicator,
                challenge: Seq::empty(),
                additional: Seq::empty(),
            }
        },
        AuthRequestView::VerifyProofOfOwnershipUnidirectional { algo_indicator, .. } => {
            AuthResponseView::VerifyProofOfOwnershipUnidirectional {
                value: ok,
                algo_indicator: algo_indicator,
                session_keyinfo: Seq::empty(),
            }
        },
        AuthRequestView::VerifyProofOfOwnershipBidirectional {
            algo_indicator,
            proof_of_ownership,
            ..
        } => AuthResponseView::VerifyProofOfOwnershipBidirectional {
            value: ok,
            algo_indicator: algo_indicator,
            proof_of_ownership: proof_of_ownership,
            session_keyinfo: Seq::empty(),
        },
        AuthRequestView::AuthenticationConfiguration => AuthResponseView::AuthenticationConfiguration(
            ok,
        ),
    }
}

/// The task that an Authentication request asks for: none where the ISO
/// 14229-1 crate does not read the request, else the fields read from its
/// data.
pub open spec fn req_auth_request(r: UdsRequestView) -> Result<AuthRequestView, ()> {
    if authentication_accepts(sub_func_byte(r), r.data) {
        match function_opt(r) {
            Some(f) => spec_auth_request(f, r.data),
            None => Err(()),
        }
    } else {
        Err(())
    }
}

/// Authentication (0x29): every task is accepted; the answer echoes what
/// the task calls for. A suppressed answer is not allowed.
pub fn authentication_reply(uds: &UdsRequest) -> (reply: Reply)
    ensures
        ({
            let sub_func = sub_func_of(uds@);
            let task_ok = req_function_within(uds@, 0x08);
            match req_auth_request(uds@) {
            Err(_) => is_negative(reply, Nrc::GeneralReject),
            Ok(req) => match sub_func {
                None => is_negative(reply, Nrc::GeneralReject),
                Some(sf) => if sf.suppress_positive {
                    is_negative(reply, Nrc::SubFunctionNotSupported)
                } else if !task_ok {
                    is_negative(reply, Nrc::IncorrectMessageLengthOrInvalidFormat)
                } else {
                    reply matches Reply::Positive { sub_func: s, payload: Payload::Auth(a) } && s
                        == Some(sf.function) && a@ == auth_answer(req)
                },
            },
            }
        }),
{
    let sub_func = uds.sub_function();
    let task_ok = match uds.function() {
        Some(f) => f <= 0x08,
        None => false,
    };
    let request = if authentication_data_ok(uds.sub_func_byte(), uds.data.as_slice()) {
        match uds.function() {
            Some(f) => auth_request_from(f, uds.data.as_slice()),
            None => Err(()),
        }
    } else {
        Err(())
    };
    let req = match request {
        Ok(r) => r,
        Err(_) => return Reply::Negative(Nrc::GeneralReject),
    };
    let sf = match sub_func {
        Some(sf) => sf,
        None => return Reply::Negative(Nrc::GeneralReject),
    };
    if sf.suppress_positive {
        return Reply::Negative(Nrc::SubFunctionNotSupported);
    }
    if !task_ok {
        return Reply::Negative(Nrc::IncorrectMessageLengthOrInvalidFormat);
    }
    let ok = AUTH_REQUEST_ACCEPTED;
    let answer = match req {
        AuthRequest::DeAuthenticate => AuthResponse::DeAuthenticate(ok),
        AuthRequest::VerifyCertificateUnidirectional { config, certificate, challenge } => {
            AuthResponse::VerifyCertificateUnidirectional {
                value: ok,
                challenge: certificate,
                ephemeral_public_key: challenge,
            }
        },
        AuthRequest::VerifyCertificateBidirectional { config, certificate, challenge } => {
            AuthResponse::VerifyCertificateBidirectional {
                value: ok,
                challenge,
                certificate,
                proof_of_ownership: Vec::new(),
                ephemeral_public_key: Vec::new(),
            }
        },
        AuthRequest::ProofOfOwnership { proof_of_ownership, ephemeral_public_key } => {
            AuthResponse::ProofOfOwnership { value: ok, session_keyinfo: ephemeral_public_key }
        },
        AuthRequest::TransmitCertificate { .. } => AuthResponse::TransmitCertificate(ok),
        AuthRequest::RequestChallengeForAuthentication { config, algo_indicator } => {
            AuthResponse::RequestChallengeForAuthentication {
                value: ok,
                algo_indicator,
                challenge: Vec::new(),
                additional: Vec::new(),
            }
        },
        AuthRequest::VerifyProofOfOwnershipUnidirectional { algo_indicator, .. } => {
            AuthResponse::VerifyProofOfOwnershipUnidirectional {
                value: ok,
                algo_indicator,
                session_keyinfo: Vec::new(),
            }
        },
        AuthRequest::VerifyProofOfOwnershipBidirectional {
            algo_indicator,
            proof_of_ownership,
            ..
        } => AuthResponse::VerifyProofOfOwnershipBidirectional {
            value: ok,
            algo_indicator,
            proof_of_ownership,
            session_keyinfo: Vec::new(),
        },
        AuthRequest::AuthenticationConfiguration => AuthResponse::AuthenticationConfiguration(ok),
    };
    Reply::Positive { sub_func: Some(sf.function), payload: Payload::Auth(answer) }
}

/// ClearDiagnosticInformation (0x14): clears the stored DTCs when the
/// request names the group of all DTCs and no memory.
pub fn clear_diagnostic_info_reply(ctx: &mut Context, req: &UdsRequest) -> (reply: Reply)
    requires
        old(ctx).wf(),
    ensures
        final(ctx).wf(),
        match clear_diagnostic_info_request_of(req@.data) {
            Err(_) => is_negative(reply, Nrc::IncorrectMessageLengthOrInvalidFormat) && final(ctx)@
                == old(ctx)@,
            Ok((group, memory_selection)) => if memory_selection is None && group == ALL_DTC_GROUP {
                positive_bytes(reply, None, Seq::empty()) && final(ctx)@ == (ContextView {
                    dtcs: Seq::empty(),
                    ..old(ctx)@
                })
            } else {
                is_negative(reply, Nrc::RequestOutOfRange) && final(ctx)@ == old(ctx)@
            },
        },
{
    match clear_diagnostic_info_request(req.data.as_slice()) {
        Err(_) => Reply::Negative(Nrc::IncorrectMessageLengthOrInvalidFormat),
        Ok((group, memory_selection)) => match ctx.clear_diagnostic_info(group, memory_selection) {
            Ok(()) => Reply::Positive { sub_func: None, payload: Payload::Bytes(Vec::new()) },
            Err(code) => Reply::Negative(code),
        },
    }
}

/// CommunicationControl (0x28): records the control type, the
/// communication type and the node; the manufacturer's, supplier's and
/// reserved control types are not supported.
pub fn communication_ctrl_reply(ctx: &mut Context, req: &UdsRequest) -> (reply: Reply)
    requires
        old(ctx).wf(),
    ensures
        final(ctx).wf(),
        match (communication_ctrl_request_of(sub_func_byte(req@), req@.data), sub_func_of(req@)) {
            (Ok((comm_type, node_id)), Some(sf)) => match spec_communication_ctrl_type(sf.function) {
                Ok(t) => match t {
                    CommunicationCtrlType::VehicleManufacturerSpecific(_)
                    | CommunicationCtrlType::SystemSupplierSpecific(_)
                    | CommunicationCtrlType::Reserved(_) => is_negative(
                        reply,
                        Nrc::SubFunctionNotSupported,
                    ) && final(ctx)@ == old(ctx)@,
                    _ => final(ctx)@ == (ContextView {
                        comm_ctrl_state: CommunicationControlState { ctrl_type: t, comm_type, node_id },
                        ..old(ctx)@
                    }) && (if sf.suppress_positive {
                        reply is Suppressed
                    } else {
                        positive_bytes(reply, Some(sf.function), Seq::empty())
                    }),
                },
                Err(_) => is_negative(reply, Nrc::SubFunctionNotSupported) && final(ctx)@ == old(ctx)@,
            },
            _ => is_negative(reply, Nrc::IncorrectMessageLengthOrInvalidFormat) && final(ctx)@
                == old(ctx)@,
        },
{
    let parsed = communication_ctrl_request(req.sub_func_byte(), req.data.as_slice());
    let (comm_type, node_id) = match parsed {
        Ok(p) => p,
        Err(_) => return Reply::Negative(Nrc::IncorrectMessageLengthOrInvalidFormat),
    };
    let sf = match req.sub_function() {
        Some(sf) => sf,
        None => return Reply::Negative(Nrc::IncorrectMessageLengthOrInvalidFormat),
    };
    let t = match communication_ctrl_type_of(sf.function) {
        Ok(t) => t,
        Err(_) => return Reply::Negative(Nrc::SubFunctionNotSupported),
    };
    let ctrl = CommunicationCtrlRequest { comm_type, node_id };
    match ctx.communication_ctrl(t, &ctrl) {
        Ok(()) => if sf.suppress_positive {
            Reply::Suppressed
        } else {
            Reply::Positive { sub_func: Some(sf.function), payload: Payload::Bytes(Vec::new()) }
        },
        Err(code) => Reply::Negative(code),
    }
}

/// InputOutputControlByIdentifier (0x2F): a short-term adjustment without
/// an enable mask writes the control state to the data identifier, where it
/// fits, and echoes it; everything else is out of range.
pub fn io_ctrl_reply(ctx: &mut Context, req: &UdsRequest) -> (reply: Reply)
    requires
        old(ctx).wf(),
    ensures
        final(ctx).wf(),
        match io_ctrl_request_of(req@.data, old(ctx)@.config.cfg.did@) {
            Err(_) => is_negative(reply, Nrc::IncorrectMessageLengthOrInvalidFormat) && final(ctx)@
                == old(ctx)@,
            Ok((did, p, state, mask)) => {
                let accepted = mask.len() == 0 && spec_io_ctrl_parameter(p) == Ok::<
                    IoCtrlParameter,
                    (),
                >(IoCtrlParameter::ShortTermAdjustment) && did_fits(
                    old(ctx)@.config.cfg,
                    did,
                    state.len(),
                );
                if accepted {
                    &&& reply matches Reply::Positive { sub_func: None, payload: Payload::IoCtrl(r) }
                    &&& r.did == did
                    &&& r.param == IoCtrlParameter::ShortTermAdjustment
                    &&& r.state@ == state
                    &&& final(ctx)@ == (ContextView {
                        did_st: old(ctx)@.did_st.insert(did, state),
                        ..old(ctx)@
                    })
                } else {
                    is_negative(reply, Nrc::RequestOutOfRange) && final(ctx)@ == old(ctx)@
                }
            },
        },
{
    let parsed = io_ctrl_request(req.data.as_slice(), &ctx.config.cfg);
    let (did, p, state, mask) = match parsed {
        Ok(v) => v,
        Err(_) => return Reply::Negative(Nrc::IncorrectMessageLengthOrInvalidFormat),
    };
    let param = match io_ctrl_parameter_of(p) {
        Ok(param) => param,
        Err(_) => return Reply::Negative(Nrc::RequestOutOfRange),
    };
    let ctrl = IoCtrlRequest { did, param, state, mask };
    match ctx.io_ctrl(&ctrl) {
        Ok(r) => Reply::Positive { sub_func: None, payload: Payload::IoCtrl(r) },
        Err(code) => Reply::Negative(code),
    }
}

/// RequestDownload (0x34) and RequestUpload (0x35): starts a transfer to
/// or from the memory area, as `start_transfer_step` says.
pub open spec fn load_reply_spec(
    reply: Reply,
    parsed: Result<(u8, u8, u128, u128), ()>,
    direction: TransferDirection,
    before: ContextView,
    after: ContextView,
) -> bool {
    match parsed {
        Err(_) => is_negative(reply, Nrc::IncorrectMessageLengthOrInvalidFormat) && after == before,
        Ok((dfi, alfi, mem_addr, mem_size)) => {
            let step = start_transfer_step(
                before,
                direction,
                dfi,
                MemoryLocation { alfi, mem_addr, mem_size },
            );
            &&& after == step.1
            &&& match step.0 {
                Ok(r) => reply matches Reply::Positive { sub_func: None, payload: Payload::Load(l) }
                    && l == r,
                Err(code) => is_negative(reply, code),
            }
        },
    }
}

/// RequestDownload (0x34): starts a download into the memory area.
pub fn request_download_reply(ctx: &mut Context, req: &UdsRequest) -> (reply: Reply)
    requires
        old(ctx).wf(),
    ensures
        final(ctx).wf(),
        load_reply_spec(
            reply,
            request_download_request_of(req@.data),
            TransferDirection::Download,
            old(ctx)@,
            final(ctx)@,
        ),
{
    match request_download_request(req.data.as_slice()) {
        Err(_) => Reply::Negative(Nrc::IncorrectMessageLengthOrInvalidFormat),
        Ok((dfi, alfi, mem_addr, mem_size)) => {
            let loc = MemoryLocation { alfi, mem_addr, mem_size };
            match ctx.request_download(dfi, loc) {
                Ok(r) => Reply::Positive { sub_func: None, payload: Payload::Load(r) },
                Err(code) => Reply::Negative(code),
            }
        },
    }
}

/// RequestUpload (0x35): starts an upload from the memory area.
pub fn request_upload_reply(ctx: &mut Context, req: &UdsRequest) -> (reply: Reply)
    requires
        old(ctx).wf(),
    ensures
        final(ctx).wf(),
        load_reply_spec(
            reply,
            request_upload_request_of(req@.data),
            TransferDirection::Upload,
            old(ctx)@,
            final(ctx)@,
        ),
{
    match request_upload_request(req.data.as_slice()) {
        Err(_) => Reply::Negative(Nrc::IncorrectMessageLengthOrInvalidFormat),
        Ok((dfi, alfi, mem_addr, mem_size)) => {
            let loc = MemoryLocation { alfi, mem_addr, mem_size };
            match ctx.request_upload(dfi, loc) {
                Ok(r) => Reply::Positive { sub_func: None, payload: Payload::Load(r) },
                Err(code) => Reply::Negative(code),
            }
        },
    }
}

/// RequestTransferExit (0x37): ends a completed transfer and echoes the
/// parameter record, as `transfer_exit_step` says.
pub fn request_transfer_exit_reply(ctx: &mut Context, req: &UdsRequest) -> (reply: Reply)
    requires
        old(ctx).wf(),
    ensures
        final(ctx).wf(),
        match transfer_exit_request_of(req@.data) {
            Err(_) => is_negative(reply, Nrc::IncorrectMessageLengthOrInvalidFormat) && final(ctx)@
                == old(ctx)@,
            Ok(record) => {
                let step = transfer_exit_step(old(ctx)@, record);
                &&& final(ctx)@ == step.1
                &&& match step.0 {
                    Ok(b) => positive_bytes(reply, None, b),
                    Err(code) => is_negative(reply, code),
                }
            },
        },
{
    match transfer_exit_request(req.data.as_slice()) {
        Err(_) => Reply::Negative(Nrc::IncorrectMessageLengthOrInvalidFormat),
        Ok(record) => match ctx.request_transfer_exit(record.as_slice()) {
            Ok(v) => Reply::Positive { sub_func: None, payload: Payload::Bytes(v) },
            Err(code) => Reply::Negative(code),
        },
    }
}

/// The two bytes of a data identifier, high byte first.
pub open spec fn did_bytes(did: u16) -> Seq<u8> {
    seq![(did / 0x100) as u8, (did % 0x100) as u8]
}

/// WriteDataByIdentifier (0x2E): writes the record to the data identifier
/// where it is configured with that length, and echoes the identifier.
pub fn write_did_reply(ctx: &mut Context, req: &UdsRequest) -> (reply: Reply)
    requires
        old(ctx).wf(),
    ensures
        final(ctx).wf(),
        match write_did_request_of(req@.data, old(ctx)@.config.cfg.did@) {
            Err(_) => is_negative(reply, Nrc::IncorrectMessageLengthOrInvalidFormat) && final(ctx)@
                == old(ctx)@,
            Ok((did, record)) => if did_fits(old(ctx)@.config.cfg, did, record.len()) {
                positive_bytes(reply, None, did_bytes(did)) && final(ctx)@ == (ContextView {
                    did_st: old(ctx)@.did_st.insert(did, record),
                    ..old(ctx)@
                })
            } else {
                is_negative(reply, Nrc::RequestOutOfRange) && final(ctx)@ == old(ctx)@
            },
        },
{
    let parsed = write_did_request(req.data.as_slice(), &ctx.config.cfg);
    match parsed {
        Err(_) => Reply::Negative(Nrc::IncorrectMessageLengthOrInvalidFormat),
        Ok((did, record)) => if ctx.set_static_did(did, record.as_slice()) {
            let bytes = vec![(did / 0x100) as u8, (did % 0x100) as u8];
            Reply::Positive { sub_func: None, payload: Payload::Bytes(bytes) }
        } else {
            Reply::Negative(Nrc::RequestOutOfRange)
        },
    }
}

} // verus!
