//! The server's first look at an incoming message, and the negative answers
//! that it sends when a request cannot be parsed or an answer cannot be
//! sent.
use vstd::prelude::*;

use super::request::UdsRequest;
use super::uds_codec::{encode_response, parse_request, request_parse, response_encode};
use crate::config::Configuration;
use crate::nrc::{spec_nrc_byte, Nrc};
use vstd::slice::slice_subrange;

verus! {

/// The service identifier of a negative response.
pub const NRC_SERVICE: u8 = 0x7F;

/// The service identifiers that ISO 14229-1 (2020 edition) defines, the
/// negative response identifier among them.
pub open spec fn is_service_id(b: u8) -> bool {
    b == 0x10 || b == 0x11 || b == 0x14 || b == 0x19 || b == 0x22 || b == 0x23 || b == 0x24 || b
        == 0x27 || b == 0x28 || b == 0x29 || b == 0x2A || b == 0x2C || b == 0x2E || b == 0x2F || b
        == 0x31 || b == 0x34 || b == 0x35 || b == 0x36 || b == 0x37 || b == 0x38 || b == 0x3D || b
        == 0x3E || b == 0x84 || b == 0x85 || b == 0x86 || b == 0x87 || b == NRC_SERVICE
}

/// `iso14229_1::Service::try_from(u8)`: accepts exactly the service
/// identifiers of the 2020 edition (the crate's default feature) and 0x7F.
#[verifier::external_body]
fn service_id_known(b: u8) -> (known: bool)
    ensures
        known == is_service_id(b),
{
    iso14229_1::Service::try_from(b).is_ok()
}

/// What the server does with an incoming message.
#[derive(Debug, Clone)]
pub enum Incoming {
    /// An empty message: nothing.
    Ignore,
    /// An unknown service: answered with ServiceNotSupported for that byte.
    UnknownService(u8),
    /// A request that the ISO 14229-1 crate does not read: answered with
    /// this code for that service.
    Malformed { service: u8, code: Nrc },
    /// A request, to be handled.
    Request(UdsRequest),
}

/// Sorts an incoming message by its first byte, and reads a request of a
/// known service with the ISO 14229-1 crate.
pub fn classify_incoming(data: &[u8], cfg: &Configuration) -> (r: Incoming)
    ensures
        data@.len() == 0 ==> r is Ignore,
        data@.len() > 0 && !is_service_id(data@[0]) ==> r == Incoming::UnknownService(data@[0]),
        data@.len() > 0 && is_service_id(data@[0]) ==> match request_parse(
            data@[0],
            data@.subrange(1, data@.len() as int),
            cfg.did@,
            cfg.dtc@,
        ) {
            Ok((sub_func, rest)) => r matches Incoming::Request(q) && q.service == data@[0]
                && q.sub_func == sub_func && q.data@ == rest,
            Err(e) => r == Incoming::Malformed { service: data@[0], code: uds_error_code(e) },
        },
{
    if data.len() == 0 {
        Incoming::Ignore
    } else if !service_id_known(data[0]) {
        Incoming::UnknownService(data[0])
    } else {
        let service = data[0];
        let rest = slice_subrange(data, 1, data.len());
        match parse_request(service, rest, cfg) {
            Ok(q) => Incoming::Request(q),
            Err(e) => Incoming::Malformed { service, code: process_uds_error(e) },
        }
    }
}

/// The bytes of a negative answer to `service`.
pub fn negative_service_frame(service: u8, code: Nrc) -> (frame: Vec<u8>)
    ensures
        frame@ == seq![NRC_SERVICE, service, spec_nrc_byte(code)],
{
    let frame = vec![NRC_SERVICE, service, code.byte()];
    assert(frame@ =~= seq![NRC_SERVICE, service, spec_nrc_byte(code)]);
    frame
}

/// The bytes of the positive answer to `service` with this sub-function
/// and data, as the ISO 14229-1 crate builds them; when the crate builds
/// none, the negative answer for the kind of error.
pub fn positive_frame(service: u8, sub_func: Option<u8>, data: &[u8], cfg: &Configuration) -> (frame:
    Vec<u8>)
    ensures
        match response_encode(service, sub_func, data@, cfg.did@, cfg.dtc@) {
            Ok(v) => frame@ == v,
            Err(e) => frame@ == seq![NRC_SERVICE, service, spec_nrc_byte(uds_error_code(e))],
        },
{
    match encode_response(service, sub_func, data, cfg) {
        Ok(v) => v,
        Err(e) => negative_service_frame(service, process_uds_error(e)),
    }
}

/// The kinds of error that parsing a request with the ISO 14229-1 crate
/// gives.
#[derive(Debug, Clone, Copy, PartialEq, Eq, Structural)]
pub enum UdsErrorKind {
    InvalidParam,
    InvalidData,
    InvalidDataLength,
    DidNotSupported,
    InvalidDynamicallyDefinedDid,
    InvalidSessionData,
    ReservedError,
    SubFunctionError,
    ServiceError,
    Other,
}

/// The code that answers a request that could not be handled: a wrong
/// length is malformed, a wrong service is out of place, anything else is
/// rejected.
pub open spec fn uds_error_code(e: UdsErrorKind) -> Nrc {
    match e {
        UdsErrorKind::InvalidDataLength => Nrc::IncorrectMessageLengthOrInvalidFormat,
        UdsErrorKind::ServiceError => Nrc::ConditionsNotCorrect,
        _ => Nrc::GeneralReject,
    }
}

/// The code that answers a request that could not be handled, as
/// `uds_error_code` says.
pub fn process_uds_error(e: UdsErrorKind) -> (code: Nrc)
    ensures
        code == uds_error_code(e),
{
    match e {
        UdsErrorKind::InvalidDataLength => Nrc::IncorrectMessageLengthOrInvalidFormat,
        UdsErrorKind::ServiceError => Nrc::ConditionsNotCorrect,
        _ => Nrc::GeneralReject,
    }
}

/// The kinds of error that sending with ISO-TP gives.
#[derive(Debug, Clone, Copy, PartialEq, Eq, Structural)]
pub enum IsoTpErrorKind {
    DeviceError,
    EmptyPdu,
    InvalidPdu,
    InvalidParam,
    InvalidDataLength,
    LengthOutOfRange,
    InvalidStMin,
    InvalidSequence,
    MixFramesError,
    Timeout,
    OverloadFlow,
    Other,
}

pub open spec fn spec_retry_code(e: IsoTpErrorKind) -> Option<Nrc> {
    match e {
        IsoTpErrorKind::EmptyPdu => Some(Nrc::IncorrectMessageLengthOrInvalidFormat),
        IsoTpErrorKind::InvalidPdu => Some(Nrc::GeneralReject),
        IsoTpErrorKind::InvalidParam => Some(Nrc::GeneralReject),
        IsoTpErrorKind::InvalidDataLength => Some(Nrc::IncorrectMessageLengthOrInvalidFormat),
        IsoTpErrorKind::LengthOutOfRange => Some(Nrc::RequestOutOfRange),
        IsoTpErrorKind::InvalidStMin => Some(Nrc::GeneralReject),
        IsoTpErrorKind::InvalidSequence => Some(Nrc::WrongBlockSequenceCounter),
        IsoTpErrorKind::MixFramesError => Some(Nrc::GeneralReject),
        IsoTpErrorKind::Timeout => Some(Nrc::GeneralReject),
        IsoTpErrorKind::OverloadFlow => Some(Nrc::RequestOutOfRange),
        _ => None,
    }
}

/// After an answer could not be sent: the negative answer to send in its
/// place, if any. A negative answer that could not be sent is not retried.
pub fn transmit_failure_code(e: IsoTpErrorKind, retry: bool) -> (code: Option<Nrc>)
    ensures
        code == if retry {
            spec_retry_code(e)
        } else {
            None::<Nrc>
        },
{
    if !retry {
        return None;
    }
    match e {
        IsoTpErrorKind::EmptyPdu => Some(Nrc::IncorrectMessageLengthOrInvalidFormat),
        IsoTpErrorKind::InvalidPdu => Some(Nrc::GeneralReject),
        IsoTpErrorKind::InvalidParam => Some(Nrc::GeneralReject),
        IsoTpErrorKind::InvalidDataLength => Some(Nrc::IncorrectMessageLengthOrInvalidFormat),
        IsoTpErrorKind::LengthOutOfRange => Some(Nrc::RequestOutOfRange),
        IsoTpErrorKind::InvalidStMin => Some(Nrc::GeneralReject),
        IsoTpErrorKind::InvalidSequence => Some(Nrc::WrongBlockSequenceCounter),
        IsoTpErrorKind::MixFramesError => Some(Nrc::GeneralReject),
        IsoTpErrorKind::Timeout => Some(Nrc::GeneralReject),
        IsoTpErrorKind::OverloadFlow => Some(Nrc::RequestOutOfRange),
        _ => None,
    }
}

} // verus!
