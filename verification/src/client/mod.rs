//! The client side: how a tester builds sub-function bytes, judges the
//! responses it receives, and carries on while the server asks it to wait.
use vstd::prelude::*;

use crate::config::Configuration;
use crate::server::dispatch::{IsoTpErrorKind, UdsErrorKind};
use crate::server::uds_codec::{
    ecu_reset_power_down_of, parse_ecu_reset, parse_response, parse_session_timing,
    parse_transfer_data_response, response_parse, session_timing_of, transfer_data_response_of,
};
use crate::server::SessionTiming;

verus! {

/// The bit of a sub-function byte that asks the server not to answer
/// positively.
pub const SUPPRESS_POSITIVE: u8 = 0x80;

/// The response code by which a server asks the client to wait.
pub const RESPONSE_PENDING: u8 = 0x78;

/// The service identifier of TesterPresent.
pub const TESTER_PRESENT: u8 = 0x3E;

/// What the client knows of a response: its service, whether it is
/// negative, its sub-function byte and its remaining bytes (the code, for a
/// negative response).
#[derive(Debug, Clone)]
pub struct ResponseInfo {
    pub service: u8,
    pub negative: bool,
    pub sub_function: Option<u8>,
    pub data: Vec<u8>,
}

/// The mathematical value of a [`ResponseInfo`].
pub struct ResponseView {
    pub service: u8,
    pub negative: bool,
    pub sub_function: Option<u8>,
    pub data: Seq<u8>,
}

impl View for ResponseInfo {
    type V = ResponseView;

    open spec fn view(&self) -> ResponseView {
        ResponseView {
            service: self.service,
            negative: self.negative,
            sub_function: self.sub_function,
            data: self.data@,
        }
    }
}

/// A response's parts as a value.
pub open spec fn response_view_of(p: (u8, bool, Option<u8>, Seq<u8>)) -> ResponseView {
    ResponseView { service: p.0, negative: p.1, sub_function: p.2, data: p.3 }
}

/// The errors of a client exchange.
#[derive(Debug, Clone, PartialEq, Eq)]
pub enum ClientError {
    /// The ISO 14229-1 layer refused a message.
    Iso14229(UdsErrorKind),
    /// The ISO-TP layer failed.
    IsoTp(IsoTpErrorKind),
    /// The server answered negatively with this code.
    NRCError { service: u8, code: u8 },
    /// The server answered another service.
    UnexpectedResponse { expect: u8, actual: u8 },
    /// The server answered another sub-function.
    UnexpectedSubFunction { service: u8, expect: u8, actual: u8 },
    /// The server's answer lacks the sub-function it should echo.
    EmptySubFunction { service: u8 },
    /// The server echoed another block sequence counter.
    UnexpectedTransferSequence { expect: u8, actual: u8 },
    /// No security algorithm was installed.
    SecurityAlgoRequired,
}

/// The sub-function byte for `function`, with the suppress bit when asked.
pub fn sub_function_byte(function: u8, suppress_positive: bool) -> (b: u8)
    requires
        function < SUPPRESS_POSITIVE,
    ensures
        b == if suppress_positive {
            function + SUPPRESS_POSITIVE
        } else {
            function as int
        },
{
    if suppress_positive {
        let b = function | SUPPRESS_POSITIVE;
        assert(function < 0x80 ==> function | 0x80u8 == function + 0x80) by (bit_vector);
        b
    } else {
        function
    }
}

/// The code of a negative response: its one byte of data.
pub open spec fn spec_nrc_code(r: ResponseView) -> Option<u8> {
    if r.negative && r.data.len() == 1 {
        Some(r.data[0])
    } else {
        None
    }
}

/// The judgement of a response to a request of service `target`.
pub open spec fn spec_response_check(response: ResponseView, target: u8) -> Result<bool, ClientError> {
    if response.negative {
        match spec_nrc_code(response) {
            None => Err(ClientError::Iso14229(UdsErrorKind::Other)),
            Some(code) => if code == RESPONSE_PENDING {
                Ok(true)
            } else {
                Err(ClientError::NRCError { service: response.service, code })
            },
        }
    } else if response.service != target {
        Err(ClientError::UnexpectedResponse { expect: target, actual: response.service })
    } else {
        Ok(false)
    }
}

/// Whether a response echoes sub-function `source` of `service`.
pub open spec fn spec_sub_func_check(response: ResponseView, source: u8, service: u8) -> Result<
    (),
    ClientError,
> {
    match response.sub_function {
        None => Err(ClientError::EmptySubFunction { service }),
        Some(target) => if target != source {
            Err(ClientError::UnexpectedSubFunction { service, expect: source, actual: target })
        } else {
            Ok(())
        },
    }
}

/// Judges a response to a request of service `target`: `Ok(true)` when the
/// server asks to wait, `Ok(false)` for the expected positive response, an
/// error for any other negative response or another service.
pub fn response_service_check(response: &ResponseInfo, target: u8) -> (res: Result<
    bool,
    ClientError,
>)
    ensures
        res == spec_response_check(response@, target),
{
    let service = response.service;
    if response.negative {
        if response.data.len() != 1 {
            return Err(ClientError::Iso14229(UdsErrorKind::Other));
        }
        let code = response.data[0];
        if code == RESPONSE_PENDING {
            Ok(true)
        } else {
            Err(ClientError::NRCError { service, code })
        }
    } else if service != target {
        Err(ClientError::UnexpectedResponse { expect: target, actual: service })
    } else {
        Ok(false)
    }
}

/// Checks that a response echoes sub-function `source` of `service`.
pub fn sub_func_check(response: &ResponseInfo, source: u8, service: u8) -> (res: Result<
    (),
    ClientError,
>)
    ensures
        res == spec_sub_func_check(response@, source, service),
{
    match response.sub_function {
        Some(target) => {
            if target != source {
                Err(ClientError::UnexpectedSubFunction { service, expect: source, actual: target })
            } else {
                Ok(())
            }
        },
        None => Err(ClientError::EmptySubFunction { service }),
    }
}

/// What the client does after receiving a response.
#[derive(Debug)]
pub enum ExchangeStep {
    /// The exchange is over, with this outcome.
    Finished(Result<ResponseInfo, ClientError>),
    /// The server asks to wait: send TesterPresent (suppressed) and wait
    /// for P2* again.
    Pending,
}

/// One round of an exchange for a request of `service`: waits on while the
/// server is pending, and checks the echoed sub-function when `sub_check`
/// asks for one.
pub fn on_response(response: ResponseInfo, service: u8, sub_check: Option<(u8, u8)>) -> (step:
    ExchangeStep)
    ensures
        match spec_response_check(response@, service) {
            Err(e) => step matches ExchangeStep::Finished(Err(e2)) && e2 == e,
            Ok(true) => step is Pending,
            Ok(false) => match sub_check {
                None => step matches ExchangeStep::Finished(Ok(r)) && r == response,
                Some((source, svc)) => match spec_sub_func_check(response@, source, svc) {
                    Ok(_) => step matches ExchangeStep::Finished(Ok(r)) && r == response,
                    Err(e) => step matches ExchangeStep::Finished(Err(e2)) && e2 == e,
                },
            },
        },
{
    match response_service_check(&response, service) {
        Err(e) => ExchangeStep::Finished(Err(e)),
        Ok(true) => ExchangeStep::Pending,
        Ok(false) => match sub_check {
            None => ExchangeStep::Finished(Ok(response)),
            Some((source, svc)) => match sub_func_check(&response, source, svc) {
                Ok(_) => ExchangeStep::Finished(Ok(response)),
                Err(e) => ExchangeStep::Finished(Err(e)),
            },
        },
    }
}

/// One round of an exchange on the bytes received: reads them as a
/// response with the ISO 14229-1 crate, then goes on as [`on_response`]
/// does. A response that the crate does not read ends the exchange with
/// the kind of error.
pub fn receive_response(
    data: &[u8],
    cfg: &Configuration,
    service: u8,
    sub_check: Option<(u8, u8)>,
) -> (step: ExchangeStep)
    ensures
        match response_parse(data@, cfg.did@, cfg.dtc@) {
            Err(k) => step matches ExchangeStep::Finished(Err(e)) && e == ClientError::Iso14229(k),
            Ok(p) => {
                let v = response_view_of(p);
                match spec_response_check(v, service) {
                    Err(e) => step matches ExchangeStep::Finished(Err(e2)) && e2 == e,
                    Ok(true) => step is Pending,
                    Ok(false) => match sub_check {
                        None => step matches ExchangeStep::Finished(Ok(r)) && r@ == v,
                        Some((source, svc)) => match spec_sub_func_check(v, source, svc) {
                            Ok(_) => step matches ExchangeStep::Finished(Ok(r)) && r@ == v,
                            Err(e) => step matches ExchangeStep::Finished(Err(e2)) && e2 == e,
                        },
                    },
                }
            },
        },
{
    match parse_response(data, cfg) {
        Err(k) => ExchangeStep::Finished(Err(ClientError::Iso14229(k))),
        Ok(response) => on_response(response, service, sub_check),
    }
}

/// How long the client waits for the first response: P2 plus its offset.
pub fn first_wait_ms(p2: u16, p2_offset: u16) -> (ms: u64)
    ensures
        ms == p2 + p2_offset,
{
    p2 as u64 + p2_offset as u64
}

/// How long the client waits after a pending response: P2* (in 10 ms).
pub fn pending_wait_ms(p2_star: u16) -> (ms: u64)
    ensures
        ms == p2_star * 10,
{
    p2_star as u64 * 10
}

/// The outcome of an exchange whose positive response the client asked the
/// server to suppress: a timeout then means success without a response.
pub fn suppress_positive_outcome(
    res: Result<ResponseInfo, ClientError>,
    suppress_positive: bool,
    sub_check: Option<(u8, u8)>,
) -> (out: Result<Option<ResponseInfo>, ClientError>)
    ensures
        match res {
            Ok(r) => match sub_check {
                None => out matches Ok(Some(r2)) && r2 == r,
                Some((source, service)) => match spec_sub_func_check(r@, source, service) {
                    Ok(_) => out matches Ok(Some(r2)) && r2 == r,
                    Err(e) => out == Err::<Option<ResponseInfo>, ClientError>(e),
                },
            },
            Err(e) => if e == ClientError::IsoTp(IsoTpErrorKind::Timeout) && suppress_positive {
                out matches Ok(None)
            } else {
                out == Err::<Option<ResponseInfo>, ClientError>(e)
            },
        },
{
    match res {
        Ok(r) => {
            match sub_check {
                Some((source, service)) => match sub_func_check(&r, source, service) {
                    Ok(_) => {},
                    Err(e) => return Err(e),
                },
                None => {},
            }
            Ok(Some(r))
        },
        Err(e) => {
            let is_timeout = match e {
                ClientError::IsoTp(IsoTpErrorKind::Timeout) => true,
                _ => false,
            };
            if is_timeout && suppress_positive {
                Ok(None)
            } else {
                Err(e)
            }
        },
    }
}

/// TransferData on the client: the server must echo the block sequence
/// counter.
pub fn check_transfer_sequence(expect: u8, actual: u8) -> (res: Result<(), ClientError>)
    ensures
        res == if expect == actual {
            Ok::<(), ClientError>(())
        } else {
            Err(ClientError::UnexpectedTransferSequence { expect, actual })
        },
{
    if actual != expect {
        Err(ClientError::UnexpectedTransferSequence { expect, actual })
    } else {
        Ok(())
    }
}

/// What unlocking a security level does after the seed came back.
#[derive(Debug, Clone)]
pub enum UnlockStep {
    /// Send this key with this sub-function (the level above the seed's).
    SendKey { level: u8, key: Vec<u8> },
    /// The algorithm computed no key: done.
    Done,
    Fail(ClientError),
}

/// Unlocking security level `level`: with the key that the algorithm
/// computed from the seed, asks for level + 1.
pub fn unlock_step(level: u8, algo: Option<Result<Option<Vec<u8>>, ClientError>>) -> (step:
    UnlockStep)
    requires
        level < 0xFF,
    ensures
        match algo {
            None => step matches UnlockStep::Fail(e) && e == ClientError::SecurityAlgoRequired,
            Some(Err(e)) => step matches UnlockStep::Fail(e2) && e2 == e,
            Some(Ok(None)) => step is Done,
            Some(Ok(Some(k))) => step matches UnlockStep::SendKey { level: l, key } && l == level
                + 1 && key@ == k@,
        },
{
    match algo {
        None => UnlockStep::Fail(ClientError::SecurityAlgoRequired),
        Some(Err(e)) => UnlockStep::Fail(e),
        Some(Ok(None)) => UnlockStep::Done,
        Some(Ok(Some(k))) => UnlockStep::SendKey { level: level + 1, key: k },
    }
}

/// SessionControl on the client: the session timing kept after the
/// exchange. A positive response carries the server's P2 and P2*, which
/// replace the timing in use; with no response (the positive one was
/// suppressed) the timing in use stays. A response that the ISO 14229-1
/// crate does not read ends with the kind of error.
pub fn session_ctrl_timing(current: SessionTiming, response: Option<&ResponseInfo>) -> (r: Result<
    SessionTiming,
    ClientError,
>)
    ensures
        match response {
            None => r == Ok::<SessionTiming, ClientError>(current),
            Some(resp) => match session_timing_of(resp.sub_function, resp.data@) {
                Ok(t) => r == Ok::<SessionTiming, ClientError>(t),
                Err(k) => r == Err::<SessionTiming, ClientError>(ClientError::Iso14229(k)),
            },
        },
{
    match response {
        None => Ok(current),
        Some(resp) => match parse_session_timing(resp.sub_function, resp.data.as_slice()) {
            Ok(t) => Ok(t),
            Err(k) => Err(ClientError::Iso14229(k)),
        },
    }
}

/// ECUReset on the client: the power-down time in seconds that the client
/// waits for, where a positive response gives one; none without a response.
/// A response that the ISO 14229-1 crate does not read ends with the kind
/// of error.
pub fn ecu_reset_power_down(response: Option<&ResponseInfo>) -> (r: Result<Option<u8>, ClientError>)
    ensures
        match response {
            None => r == Ok::<Option<u8>, ClientError>(None),
            Some(resp) => match ecu_reset_power_down_of(resp.sub_function, resp.data@) {
                Ok(t) => r == Ok::<Option<u8>, ClientError>(t),
                Err(k) => r == Err::<Option<u8>, ClientError>(ClientError::Iso14229(k)),
            },
        },
{
    match response {
        None => Ok(None),
        Some(resp) => match parse_ecu_reset(resp.sub_function, resp.data.as_slice()) {
            Ok(t) => Ok(t),
            Err(k) => Err(ClientError::Iso14229(k)),
        },
    }
}

/// TransferData on the client: the block sequence counter and the data of
/// the positive response, where the server echoed the counter `expect`
/// that was sent.
pub fn transfer_data_outcome(expect: u8, response: &ResponseInfo) -> (r: Result<
    (u8, Vec<u8>),
    ClientError,
>)
    ensures
        match transfer_data_response_of(response.sub_function, response.data@) {
            Err(k) => r matches Err(e) && e == ClientError::Iso14229(k),
            Ok((sequence, block)) => if sequence == expect {
                r matches Ok((s, b)) && s == sequence && b@ == block
            } else {
                r matches Err(e) && e == (ClientError::UnexpectedTransferSequence {
                    expect,
                    actual: sequence,
                })
            },
        },
{
    match parse_transfer_data_response(response.sub_function, response.data.as_slice()) {
        Err(k) => Err(ClientError::Iso14229(k)),
        Ok((sequence, block)) => match check_transfer_sequence(expect, sequence) {
            Ok(()) => Ok((sequence, block)),
            Err(e) => Err(e),
        },
    }
}

} // verus!
