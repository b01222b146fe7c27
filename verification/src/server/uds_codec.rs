//! The calls that the library's logic makes into the ISO 14229-1 crate.
use vstd::prelude::*;

use super::context::{RequestLoadResponse, RoutineCtrlResponse};
use super::dispatch::UdsErrorKind;
use super::request::UdsRequest;
use super::SessionTiming;
use crate::client::ResponseInfo;
use crate::config::Configuration;
use iso14229_1::request::{self as req, Request};
use iso14229_1::response::Response;
use iso14229_1::{DataIdentifier, Iso14229Error, Service};

verus! {

/// What `Request::try_from((service, data, cfg))` of the ISO 14229-1 crate
/// reads from the bytes of a request after its service identifier: its
/// sub-function (its byte and its suppress bit) and the rest of its bytes,
/// or the kind of error.
pub uninterp spec fn request_parse(
    service: u8,
    data: Seq<u8>,
    did: Map<u16, usize>,
    dtc: Map<u8, usize>,
) -> Result<(Option<(u8, bool)>, Seq<u8>), UdsErrorKind>;

/// `iso14229_1::request::Request::try_from((service, data, cfg))`, with the
/// service identifier and the data lengths converted to the crate's types:
/// the request as the crate reads it, as `request_parse` names it. Of its
/// errors (an unknown service identifier among them), only a wrong length
/// and a wrong service are told apart.
#[verifier::external_body]
pub(crate) fn parse_request(service: u8, data: &[u8], cfg: &Configuration) -> (r: Result<
    UdsRequest,
    UdsErrorKind,
>)
    ensures
        match r {
            Ok(q) => q.service == service && request_parse(service, data@, cfg.did@, cfg.dtc@)
                == Ok::<(Option<(u8, bool)>, Seq<u8>), UdsErrorKind>((q.sub_func, q.data@)),
            Err(e) => request_parse(service, data@, cfg.did@, cfg.dtc@) == Err::<
                (Option<(u8, bool)>, Seq<u8>),
                UdsErrorKind,
            >(e),
        },
{
    let did = cfg.did.iter().map(|(k, v)| (DataIdentifier::from(*k), *v)).collect();
    let cfg = iso14229_1::Configuration { did, dtc: cfg.dtc.clone() };
    match Service::try_from(service).and_then(|s| Request::try_from((s, data, &cfg))) {
        Ok(r) => {
            let sub_func = r.sub_function().map(|f| (u8::from(f), f.is_suppress_positive()));
            Ok(UdsRequest { service, sub_func, data: r.raw_data().to_vec() })
        },
        Err(Iso14229Error::InvalidDataLength { .. }) => Err(UdsErrorKind::InvalidDataLength),
        Err(Iso14229Error::ServiceError(_)) => Err(UdsErrorKind::ServiceError),
        Err(_) => Err(UdsErrorKind::Other),
    }
}

/// What `Response::new(service, sub_func, data, cfg)` of the ISO 14229-1
/// crate, turned into bytes, gives: the positive answer's bytes, or the
/// kind of error when the crate builds no answer of these parts.
pub uninterp spec fn response_encode(
    service: u8,
    sub_func: Option<u8>,
    data: Seq<u8>,
    did: Map<u16, usize>,
    dtc: Map<u8, usize>,
) -> Result<Seq<u8>, UdsErrorKind>;

/// `iso14229_1::response::Response::new(service, sub_func, data, cfg)`,
/// with the service identifier and the data lengths converted to the
/// crate's types, and the answer turned into bytes with
/// `Vec::<u8>::from`, as `response_encode` names it. Of its errors (an
/// unknown service identifier among them), only a wrong length and a wrong
/// service are told apart.
#[verifier::external_body]
pub(crate) fn encode_response(
    service: u8,
    sub_func: Option<u8>,
    data: &[u8],
    cfg: &Configuration,
) -> (r: Result<Vec<u8>, UdsErrorKind>)
    ensures
        match r {
            Ok(v) => response_encode(service, sub_func, data@, cfg.did@, cfg.dtc@) == Ok::<
                Seq<u8>,
                UdsErrorKind,
            >(v@),
            Err(e) => response_encode(service, sub_func, data@, cfg.did@, cfg.dtc@) == Err::<
                Seq<u8>,
                UdsErrorKind,
            >(e),
        },
{
    let did = cfg.did.iter().map(|(k, v)| (DataIdentifier::from(*k), *v)).collect();
    let cfg = iso14229_1::Configuration { did, dtc: cfg.dtc.clone() };
    match Service::try_from(service).and_then(|s| Response::new(s, sub_func, data, &cfg)) {
        Ok(r) => Ok(Vec::<u8>::from(r)),
        Err(Iso14229Error::InvalidDataLength { .. }) => Err(UdsErrorKind::InvalidDataLength),
        Err(Iso14229Error::ServiceError(_)) => Err(UdsErrorKind::ServiceError),
        Err(_) => Err(UdsErrorKind::Other),
    }
}

/// What `Response::try_from((data, cfg))` of the ISO 14229-1 crate reads
/// from the bytes of a response: its service, whether it is negative, its
/// sub-function byte and the rest of its bytes (the code, for a negative
/// response), or the kind of error.
pub uninterp spec fn response_parse(
    data: Seq<u8>,
    did: Map<u16, usize>,
    dtc: Map<u8, usize>,
) -> Result<(u8, bool, Option<u8>, Seq<u8>), UdsErrorKind>;

/// `iso14229_1::response::Response::try_from((data, cfg))`, with the data
/// lengths converted to the crate's types: the response's parts, as
/// `response_parse` names them. Of its errors, only a wrong length and a
/// wrong service are told apart.
#[verifier::external_body]
pub(crate) fn parse_response(data: &[u8], cfg: &Configuration) -> (r: Result<
    ResponseInfo,
    UdsErrorKind,
>)
    ensures
        match r {
            Ok(v) => response_parse(data@, cfg.did@, cfg.dtc@) == Ok::<
                (u8, bool, Option<u8>, Seq<u8>),
                UdsErrorKind,
            >((v.service, v.negative, v.sub_function, v.data@)),
            Err(e) => response_parse(data@, cfg.did@, cfg.dtc@) == Err::<
                (u8, bool, Option<u8>, Seq<u8>),
                UdsErrorKind,
            >(e),
        },
{
    let did = cfg.did.iter().map(|(k, v)| (DataIdentifier::from(*k), *v)).collect();
    let cfg = iso14229_1::Configuration { did, dtc: cfg.dtc.clone() };
    match Response::try_from((data, &cfg)) {
        Ok(r) => Ok(ResponseInfo {
            service: r.service().into(),
            negative: r.is_negative(),
            sub_function: r.sub_function().map(|s| s.origin()),
            data: r.raw_data().to_vec(),
        }),
        Err(Iso14229Error::InvalidDataLength { .. }) => Err(UdsErrorKind::InvalidDataLength),
        Err(Iso14229Error::ServiceError(_)) => Err(UdsErrorKind::ServiceError),
        Err(_) => Err(UdsErrorKind::Other),
    }
}

/// Whether `Request::data::<request::CtrlDTCSetting>` reads a
/// ControlDTCSetting request with this sub-function byte and data.
pub uninterp spec fn ctrl_dtc_setting_accepts(sub_func: Option<u8>, data: Seq<u8>) -> bool;

/// `Request::data::<request::CtrlDTCSetting>` on the request that
/// `Request::new` builds of these parts: whether it reads. The crate's
/// configuration is not read for this service.
#[verifier::external_body]
pub(crate) fn ctrl_dtc_setting_data_ok(sub_func: Option<u8>, data: &[u8]) -> (ok: bool)
    ensures
        ok == ctrl_dtc_setting_accepts(sub_func, data@),
{
    let cfg = iso14229_1::Configuration::default();
    match Request::new(Service::CtrlDTCSetting, sub_func, data, &cfg) {
        Ok(r) => r.data::<req::CtrlDTCSetting>(&cfg).is_ok(),
        Err(_) => false,
    }
}

/// Whether `Request::data::<request::LinkCtrl>` reads a LinkControl request
/// with this sub-function byte and data.
pub uninterp spec fn link_ctrl_accepts(sub_func: Option<u8>, data: Seq<u8>) -> bool;

/// `Request::data::<request::LinkCtrl>` on the request that `Request::new`
/// builds of these parts: whether it reads. The crate's configuration is
/// not read for this service.
#[verifier::external_body]
pub(crate) fn link_ctrl_data_ok(sub_func: Option<u8>, data: &[u8]) -> (ok: bool)
    ensures
        ok == link_ctrl_accepts(sub_func, data@),
{
    let cfg = iso14229_1::Configuration::default();
    match Request::new(Service::LinkCtrl, sub_func, data, &cfg) {
        Ok(r) => r.data::<req::LinkCtrl>(&cfg).is_ok(),
        Err(_) => false,
    }
}

/// Whether `Request::data::<request::ReadDataByPeriodId>` reads a
/// ReadDataByPeriodicIdentifier request with this data.
pub uninterp spec fn read_data_by_pid_accepts(sub_func: Option<u8>, data: Seq<u8>) -> bool;

/// `Request::data::<request::ReadDataByPeriodId>` on the request that
/// `Request::new` builds of these parts: whether it reads. The crate's
/// configuration is not read for this service.
#[verifier::external_body]
pub(crate) fn read_data_by_pid_data_ok(sub_func: Option<u8>, data: &[u8]) -> (ok: bool)
    ensures
        ok == read_data_by_pid_accepts(sub_func, data@),
{
    let cfg = iso14229_1::Configuration::default();
    match Request::new(Service::ReadDataByPeriodId, sub_func, data, &cfg) {
        Ok(r) => r.data::<req::ReadDataByPeriodId>(&cfg).is_ok(),
        Err(_) => false,
    }
}

/// Whether `Request::data::<request::DTCInfo>` reads a ReadDTCInformation
/// request with this sub-function byte and data.
pub uninterp spec fn read_dtc_info_accepts(sub_func: Option<u8>, data: Seq<u8>) -> bool;

/// `Request::data::<request::DTCInfo>` on the request that `Request::new`
/// builds of these parts: whether it reads. The crate's configuration is
/// not read for this service.
#[verifier::external_body]
pub(crate) fn read_dtc_info_data_ok(sub_func: Option<u8>, data: &[u8]) -> (ok: bool)
    ensures
        ok == read_dtc_info_accepts(sub_func, data@),
{
    let cfg = iso14229_1::Configuration::default();
    match Request::new(Service::ReadDTCInfo, sub_func, data, &cfg) {
        Ok(r) => r.data::<req::DTCInfo>(&cfg).is_ok(),
        Err(_) => false,
    }
}

/// Whether `Request::data::<request::Authentication>` reads an
/// Authentication request with this sub-function byte and data.
pub uninterp spec fn authentication_accepts(sub_func: Option<u8>, data: Seq<u8>) -> bool;

/// `Request::data::<request::Authentication>` on the request that
/// `Request::new` builds of these parts: whether it reads. The crate's
/// configuration is not read for this service.
#[verifier::external_body]
pub(crate) fn authentication_data_ok(sub_func: Option<u8>, data: &[u8]) -> (ok: bool)
    ensures
        ok == authentication_accepts(sub_func, data@),
{
    let cfg = iso14229_1::Configuration::default();
    match Request::new(Service::Authentication, sub_func, data, &cfg) {
        Ok(r) => r.data::<req::Authentication>(&cfg).is_ok(),
        Err(_) => false,
    }
}

/// What `Request::data::<request::RoutineCtrl>` reads from a RoutineControl
/// request: the routine identifier and the option record.
pub uninterp spec fn routine_ctrl_request_of(sub_func: Option<u8>, data: Seq<u8>) -> Result<
    (u16, Seq<u8>),
    (),
>;

/// `Request::data::<request::RoutineCtrl>` on the request that
/// `Request::new` builds of these parts. The crate's configuration is not
/// read for this service.
#[verifier::external_body]
pub(crate) fn routine_ctrl_request(sub_func: Option<u8>, data: &[u8]) -> (r: Result<
    (u16, Vec<u8>),
    (),
>)
    ensures
        match r {
            Ok((id, record)) => routine_ctrl_request_of(sub_func, data@) == Ok::<(u16, Seq<u8>), ()>(
                (id, record@),
            ),
            Err(_) => routine_ctrl_request_of(sub_func, data@) is Err,
        },
{
    let cfg = iso14229_1::Configuration::default();
    let r = Request::new(Service::RoutineCtrl, sub_func, data, &cfg).map_err(|_| ())?;
    let v = r.data::<req::RoutineCtrl>(&cfg).map_err(|_| ())?;
    Ok((v.routine_id.0, v.option_record))
}

/// What `Request::data::<request::TransferData>` reads from a TransferData
/// request: the block sequence counter and the data.
pub uninterp spec fn transfer_data_request_of(sub_func: Option<u8>, data: Seq<u8>) -> Result<
    (u8, Seq<u8>),
    (),
>;

/// `Request::data::<request::TransferData>` on the request that
/// `Request::new` builds of these parts. The crate's configuration is not
/// read for this service.
#[verifier::external_body]
pub(crate) fn transfer_data_request(sub_func: Option<u8>, data: &[u8]) -> (r: Result<
    (u8, Vec<u8>),
    (),
>)
    ensures
        match r {
            Ok((sequence, block)) => transfer_data_request_of(sub_func, data@) == Ok::<
                (u8, Seq<u8>),
                (),
            >((sequence, block@)),
            Err(_) => transfer_data_request_of(sub_func, data@) is Err,
        },
{
    let cfg = iso14229_1::Configuration::default();
    let r = Request::new(Service::TransferData, sub_func, data, &cfg).map_err(|_| ())?;
    let v = r.data::<req::TransferData>(&cfg).map_err(|_| ())?;
    Ok((v.sequence, v.data))
}

/// What `Request::data::<request::ReadDID>` reads from a
/// ReadDataByIdentifier request: the identifiers, in order.
pub uninterp spec fn read_did_request_of(sub_func: Option<u8>, data: Seq<u8>) -> Result<
    Seq<u16>,
    (),
>;

/// `Request::data::<request::ReadDID>` on the request that `Request::new`
/// builds of these parts, with the identifiers collected. The crate's
/// configuration is not read for this service.
#[verifier::external_body]
pub(crate) fn read_did_request(sub_func: Option<u8>, data: &[u8]) -> (r: Result<Vec<u16>, ()>)
    ensures
        match r {
            Ok(dids) => read_did_request_of(sub_func, data@) == Ok::<Seq<u16>, ()>(dids@),
            Err(_) => read_did_request_of(sub_func, data@) is Err,
        },
{
    let cfg = iso14229_1::Configuration::default();
    let r = Request::new(Service::ReadDID, sub_func, data, &cfg).map_err(|_| ())?;
    let v = r.data::<req::ReadDID>(&cfg).map_err(|_| ())?;
    Ok(v.collect().into_iter().map(u16::from).collect())
}

/// What `Request::data::<request::WriteMemByAddr>` reads from a
/// WriteMemoryByAddress request: the memory area as its format byte,
/// address and size.
pub uninterp spec fn write_mem_request_of(sub_func: Option<u8>, data: Seq<u8>) -> Result<
    (u8, u128, u128),
    (),
>;

/// `Request::data::<request::WriteMemByAddr>` on the request that
/// `Request::new` builds of these parts: the memory area, its format byte
/// taken from the area's encoding. The crate's configuration is not read
/// for this service.
#[verifier::external_body]
pub(crate) fn write_mem_request(sub_func: Option<u8>, data: &[u8]) -> (r: Result<
    (u8, u128, u128),
    (),
>)
    ensures
        match r {
            Ok(loc) => write_mem_request_of(sub_func, data@) == Ok::<(u8, u128, u128), ()>(loc),
            Err(_) => write_mem_request_of(sub_func, data@) is Err,
        },
{
    let cfg = iso14229_1::Configuration::default();
    let r = Request::new(Service::WriteMemByAddr, sub_func, data, &cfg).map_err(|_| ())?;
    let loc = r.data::<req::WriteMemByAddr>(&cfg).map_err(|_| ())?.mem_loc;
    Ok((Vec::<u8>::from(loc)[0], loc.memory_address(), loc.memory_size()))
}

/// `iso14229_1::response::RoutineCtrl::new`: refuses routine status bytes
/// that come without a routine info byte, and otherwise keeps the three
/// fields as given.
#[verifier::external_body]
pub(crate) fn new_routine_ctrl_response(
    routine_id: u16,
    routine_info: Option<u8>,
    routine_status: Vec<u8>,
) -> (res: Result<RoutineCtrlResponse, ()>)
    ensures
        res is Ok <==> !(routine_info is None && routine_status@.len() > 0),
        res matches Ok(r) ==> r.routine_id == routine_id && r.routine_info == routine_info
            && r.routine_status@ == routine_status@,
{
    let id = iso14229_1::RoutineId(routine_id);
    match iso14229_1::response::RoutineCtrl::new(id, routine_info, routine_status) {
        Ok(r) => Ok(
            RoutineCtrlResponse {
                routine_id: r.routine_id.0,
                routine_info: r.routine_info,
                routine_status: r.routine_status,
            },
        ),
        Err(_) => Err(()),
    }
}

/// `iso14229_1::response::RequestDownload::new`: refuses a zero
/// maxNumberOfBlockLength and otherwise keeps it.
#[verifier::external_body]
pub(crate) fn new_request_download_response(max_num_of_block_len: u128) -> (res: Result<
    RequestLoadResponse,
    (),
>)
    ensures
        res is Ok <==> max_num_of_block_len != 0,
        res matches Ok(r) ==> r.max_num_of_block_len == max_num_of_block_len,
{
    match iso14229_1::response::RequestDownload::new(max_num_of_block_len) {
        Ok(r) => Ok(RequestLoadResponse { max_num_of_block_len: r.max_num_of_block_len }),
        Err(_) => Err(()),
    }
}

/// `iso14229_1::response::RequestUpload::new`: refuses a zero
/// maxNumberOfBlockLength and otherwise keeps it.
#[verifier::external_body]
pub(crate) fn new_request_upload_response(max_num_of_block_len: u128) -> (res: Result<
    RequestLoadResponse,
    (),
>)
    ensures
        res is Ok <==> max_num_of_block_len != 0,
        res matches Ok(r) ==> r.max_num_of_block_len == max_num_of_block_len,
{
    match iso14229_1::response::RequestUpload::new(max_num_of_block_len) {
        Ok(r) => Ok(RequestLoadResponse { max_num_of_block_len: r.max_num_of_block_len }),
        Err(_) => Err(()),
    }
}

/// `iso14229_1::response::SecurityAccess::new_response`: refuses a
/// seed-sending (odd) level that comes with no data, and otherwise builds
/// the answer. The configuration it is given is not read.
#[verifier::external_body]
pub(crate) fn security_access_response_ok(level: u8, data: &[u8]) -> (ok: bool)
    ensures
        ok == !(level % 2 == 1 && data@.len() == 0),
{
    <iso14229_1::response::SecurityAccess as iso14229_1::ResponseData>::new_response(
        data,
        Some(level),
        &iso14229_1::Configuration::default(),
    ).is_ok()
}

/// The bytes of a timing record: P2 and then P2*, each big-endian.
pub open spec fn timing_bytes(t: SessionTiming) -> Seq<u8> {
    seq![(t.p2 >> 8u16) as u8, t.p2 as u8, (t.p2_star >> 8u16) as u8, t.p2_star as u8]
}

/// `Vec::<u8>::from(iso14229_1::response::SessionTiming)`: P2 and then P2*,
/// each as two big-endian bytes.
#[verifier::external_body]
pub(crate) fn session_timing_to_bytes(t: SessionTiming) -> (v: Vec<u8>)
    ensures
        v@ == timing_bytes(t),
{
    Vec::<u8>::from(iso14229_1::response::SessionTiming { p2: t.p2, p2_star: t.p2_star })
}

/// What `Response::data::<response::SessionCtrl>` reads from a positive
/// SessionControl response with this sub-function byte and data: the
/// session timing it carries (P2 and P2*), or the kind of error.
pub uninterp spec fn session_timing_of(sub_func: Option<u8>, data: Seq<u8>) -> Result<
    SessionTiming,
    UdsErrorKind,
>;

/// `Response::data::<response::SessionCtrl>` on the response that
/// `Response::new` builds of these parts. The crate's configuration is not
/// read for this service.
#[verifier::external_body]
pub(crate) fn parse_session_timing(sub_func: Option<u8>, data: &[u8]) -> (r: Result<
    SessionTiming,
    UdsErrorKind,
>)
    ensures
        r == session_timing_of(sub_func, data@),
{
    let cfg = iso14229_1::Configuration::default();
    let parsed = match Response::new(Service::SessionCtrl, sub_func, data, &cfg) {
        Ok(r) => r.data::<iso14229_1::response::SessionCtrl>(&cfg),
        Err(e) => Err(e),
    };
    match parsed {
        Ok(v) => Ok(SessionTiming { p2: v.0.p2, p2_star: v.0.p2_star }),
        Err(Iso14229Error::InvalidDataLength { .. }) => Err(UdsErrorKind::InvalidDataLength),
        Err(Iso14229Error::ServiceError(_)) => Err(UdsErrorKind::ServiceError),
        Err(_) => Err(UdsErrorKind::Other),
    }
}

/// What `Response::data::<response::ECUReset>` reads from a positive
/// ECUReset response with this sub-function byte and data: the power-down
/// time in seconds, where the response has one, or the kind of error.
pub uninterp spec fn ecu_reset_power_down_of(sub_func: Option<u8>, data: Seq<u8>) -> Result<
    Option<u8>,
    UdsErrorKind,
>;

/// `Response::data::<response::ECUReset>` on the response that
/// `Response::new` builds of these parts. The crate's configuration is not
/// read for this service.
#[verifier::external_body]
pub(crate) fn parse_ecu_reset(sub_func: Option<u8>, data: &[u8]) -> (r: Result<
    Option<u8>,
    UdsErrorKind,
>)
    ensures
        r == ecu_reset_power_down_of(sub_func, data@),
{
    let cfg = iso14229_1::Configuration::default();
    let parsed = match Response::new(Service::ECUReset, sub_func, data, &cfg) {
        Ok(r) => r.data::<iso14229_1::response::ECUReset>(&cfg),
        Err(e) => Err(e),
    };
    match parsed {
        Ok(v) => Ok(v.second),
        Err(Iso14229Error::InvalidDataLength { .. }) => Err(UdsErrorKind::InvalidDataLength),
        Err(Iso14229Error::ServiceError(_)) => Err(UdsErrorKind::ServiceError),
        Err(_) => Err(UdsErrorKind::Other),
    }
}

/// What `Response::data::<response::TransferData>` reads from a positive
/// TransferData response with this sub-function byte and data: the block
/// sequence counter and the data, or the kind of error.
pub uninterp spec fn transfer_data_response_of(sub_func: Option<u8>, data: Seq<u8>) -> Result<
    (u8, Seq<u8>),
    UdsErrorKind,
>;

/// `Response::data::<response::TransferData>` on the response that
/// `Response::new` builds of these parts. The crate's configuration is not
/// read for this service.
#[verifier::external_body]
pub(crate) fn parse_transfer_data_response(sub_func: Option<u8>, data: &[u8]) -> (r: Result<
    (u8, Vec<u8>),
    UdsErrorKind,
>)
    ensures
        match r {
            Ok((sequence, block)) => transfer_data_response_of(sub_func, data@) == Ok::<
                (u8, Seq<u8>),
                UdsErrorKind,
            >((sequence, block@)),
            Err(k) => transfer_data_response_of(sub_func, data@) == Err::<(u8, Seq<u8>), UdsErrorKind>(k),
        },
{
    let cfg = iso14229_1::Configuration::default();
    let parsed = match Response::new(Service::TransferData, sub_func, data, &cfg) {
        Ok(r) => r.data::<iso14229_1::response::TransferData>(&cfg),
        Err(e) => Err(e),
    };
    match parsed {
        Ok(v) => Ok((v.sequence, v.data)),
        Err(Iso14229Error::InvalidDataLength { .. }) => Err(UdsErrorKind::InvalidDataLength),
        Err(Iso14229Error::ServiceError(_)) => Err(UdsErrorKind::ServiceError),
        Err(_) => Err(UdsErrorKind::Other),
    }
}

/// What `Request::data::<request::ClearDiagnosticInfo>` reads from a
/// ClearDiagnosticInformation request: the DTC group and the memory
/// selection, where the request has one.
pub uninterp spec fn clear_diagnostic_info_request_of(data: Seq<u8>) -> Result<(u32, Option<u8>), ()>;

/// `Request::data::<request::ClearDiagnosticInfo>` on the request that `Request::new`
/// builds of these parts. The crate's
/// configuration is not read for this service.
#[verifier::external_body]
pub(crate) fn clear_diagnostic_info_request(data: &[u8]) -> (r: Result<(u32, Option<u8>), ()>)
    ensures
        r == clear_diagnostic_info_request_of(data@),
{
    let cfg = iso14229_1::Configuration::default();
    let r = Request::new(Service::ClearDiagnosticInfo, None, data, &cfg).map_err(|_| ())?;
    let v = r.data::<req::ClearDiagnosticInfo>(&cfg).map_err(|_| ())?;
    Ok((v.group(), v.memory_selection()))
}

/// What `Request::data::<request::RequestTransferExit>` reads from a
/// RequestTransferExit request: its parameter record.
pub uninterp spec fn transfer_exit_request_of(data: Seq<u8>) -> Result<Seq<u8>, ()>;

/// `Request::data::<request::RequestTransferExit>` on the request that `Request::new`
/// builds of these parts. The crate's
/// configuration is not read for this service.
#[verifier::external_body]
pub(crate) fn transfer_exit_request(data: &[u8]) -> (r: Result<Vec<u8>, ()>)
    ensures
        match r {
            Ok(v) => transfer_exit_request_of(data@) == Ok::<Seq<u8>, ()>(v@),
            Err(_) => transfer_exit_request_of(data@) is Err,
        },
{
    let cfg = iso14229_1::Configuration::default();
    let r = Request::new(Service::RequestTransferExit, None, data, &cfg).map_err(|_| ())?;
    let v = r.data::<req::RequestTransferExit>(&cfg).map_err(|_| ())?;
    Ok(v.data)
}

/// What `Request::data::<request::WriteDID>` reads from a
/// WriteDataByIdentifier request, with the data lengths `did`: the data
/// identifier and the record.
pub uninterp spec fn write_did_request_of(data: Seq<u8>, did: Map<u16, usize>) -> Result<(u16, Seq<u8>), ()>;

/// `Request::data::<request::WriteDID>` on the request that `Request::new`
/// builds of these parts.
#[verifier::external_body]
pub(crate) fn write_did_request(data: &[u8], cfg: &Configuration) -> (r: Result<(u16, Vec<u8>), ()>)
    ensures
        match r {
            Ok((d, record)) => write_did_request_of(data@, cfg.did@) == Ok::<(u16, Seq<u8>), ()>((d, record@)),
            Err(_) => write_did_request_of(data@, cfg.did@) is Err,
        },
{
    let did = cfg.did.iter().map(|(k, v)| (DataIdentifier::from(*k), *v)).collect();
    let cfg = iso14229_1::Configuration { did, dtc: cfg.dtc.clone() };
    let r = Request::new(Service::WriteDID, None, data, &cfg).map_err(|_| ())?;
    let v = r.data::<req::WriteDID>(&cfg).map_err(|_| ())?;
    Ok((u16::from(v.0.did), v.0.data))
}

/// What `Request::data::<request::RequestDownload>` reads from a RequestDownload
/// request: the data format byte and the memory area as its format byte,
/// address and size.
pub uninterp spec fn request_download_request_of(data: Seq<u8>) -> Result<(u8, u8, u128, u128), ()>;

/// `Request::data::<request::RequestDownload>` on the request that `Request::new`
/// builds of these parts. The crate's
/// configuration is not read for this service.
#[verifier::external_body]
pub(crate) fn request_download_request(data: &[u8]) -> (r: Result<(u8, u8, u128, u128), ()>)
    ensures
        r == request_download_request_of(data@),
{
    let cfg = iso14229_1::Configuration::default();
    let r = Request::new(Service::RequestDownload, None, data, &cfg).map_err(|_| ())?;
    let v = r.data::<req::RequestDownload>(&cfg).map_err(|_| ())?;
    Ok((v.dfi.into(), Vec::<u8>::from(v.mem_loc)[0], v.mem_loc.memory_address(), v.mem_loc.memory_size()))
}

/// What `Request::data::<request::RequestUpload>` reads from a RequestUpload
/// request: the data format byte and the memory area as its format byte,
/// address and size.
pub uninterp spec fn request_upload_request_of(data: Seq<u8>) -> Result<(u8, u8, u128, u128), ()>;

/// `Request::data::<request::RequestUpload>` on the request that `Request::new`
/// builds of these parts. The crate's
/// configuration is not read for this service.
#[verifier::external_body]
pub(crate) fn request_upload_request(data: &[u8]) -> (r: Result<(u8, u8, u128, u128), ()>)
    ensures
        r == request_upload_request_of(data@),
{
    let cfg = iso14229_1::Configuration::default();
    let r = Request::new(Service::RequestUpload, None, data, &cfg).map_err(|_| ())?;
    let v = r.data::<req::RequestUpload>(&cfg).map_err(|_| ())?;
    Ok((v.dfi.into(), Vec::<u8>::from(v.mem_loc)[0], v.mem_loc.memory_address(), v.mem_loc.memory_size()))
}

/// What `Request::data::<request::CommunicationCtrl>` reads from a
/// CommunicationControl request: the communication type byte and the node
/// identifier, where the request has one.
pub uninterp spec fn communication_ctrl_request_of(sub_func: Option<u8>, data: Seq<u8>) -> Result<(u8, Option<u16>), ()>;

/// `Request::data::<request::CommunicationCtrl>` on the request that `Request::new`
/// builds of these parts. The crate's
/// configuration is not read for this service.
#[verifier::external_body]
pub(crate) fn communication_ctrl_request(sub_func: Option<u8>, data: &[u8]) -> (r: Result<(u8, Option<u16>), ()>)
    ensures
        r == communication_ctrl_request_of(sub_func, data@),
{
    let cfg = iso14229_1::Configuration::default();
    let r = Request::new(Service::CommunicationCtrl, sub_func, data, &cfg).map_err(|_| ())?;
    let v = r.data::<req::CommunicationCtrl>(&cfg).map_err(|_| ())?;
    Ok((v.comm_type.value(), v.node_id.map(u16::from)))
}

/// What `Request::data::<request::IOCtrl>` reads from an
/// InputOutputControlByIdentifier request, with the data lengths `did`: the
/// data identifier, the control parameter byte, the control state and the
/// enable mask.
pub uninterp spec fn io_ctrl_request_of(data: Seq<u8>, did: Map<u16, usize>) -> Result<(u16, u8, Seq<u8>, Seq<u8>), ()>;

/// `Request::data::<request::IOCtrl>` on the request that `Request::new`
/// builds of these parts.
#[verifier::external_body]
pub(crate) fn io_ctrl_request(data: &[u8], cfg: &Configuration) -> (r: Result<(u16, u8, Vec<u8>, Vec<u8>), ()>)
    ensures
        match r {
            Ok((d, p, state, mask)) => io_ctrl_request_of(data@, cfg.did@) == Ok::<
                (u16, u8, Seq<u8>, Seq<u8>),
                (),
            >((d, p, state@, mask@)),
            Err(_) => io_ctrl_request_of(data@, cfg.did@) is Err,
        },
{
    let did = cfg.did.iter().map(|(k, v)| (DataIdentifier::from(*k), *v)).collect();
    let cfg = iso14229_1::Configuration { did, dtc: cfg.dtc.clone() };
    let r = Request::new(Service::IOCtrl, None, data, &cfg).map_err(|_| ())?;
    let v = r.data::<req::IOCtrl>(&cfg).map_err(|_| ())?;
    Ok((u16::from(v.did), v.option.param.into(), v.option.state, v.mask))
}

} // verus!
