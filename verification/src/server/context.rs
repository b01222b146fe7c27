//! The state that a diagnostic server keeps between requests, and the
//! operations of the services that read or change it.
use std::collections::HashMap;
use vstd::prelude::*;

use super::dtc::{records_view, DtcRecord, DtcRecordView};
use super::{Config, SessionTiming, P2_MAX, P2_STAR_MAX};
use crate::config::Configuration;
use crate::nrc::Nrc;

verus! {

broadcast use vstd::std_specs::hash::group_hash_axioms;

/// The sub-functions of CommunicationControl (0x28).
#[derive(Debug, Clone, Copy, PartialEq, Eq, Structural)]
pub enum CommunicationCtrlType {
    EnableRxAndTx,
    EnableRxAndDisableTx,
    DisableRxAndEnableTx,
    DisableRxAndTx,
    EnableRxAndDisableTxWithEnhancedAddressInformation,
    EnableRxAndTxWithEnhancedAddressInformation,
    VehicleManufacturerSpecific(u8),
    SystemSupplierSpecific(u8),
    Reserved(u8),
}

/// The parameters of a CommunicationControl request.
#[derive(Debug, Clone, Copy, PartialEq, Eq, Structural)]
pub struct CommunicationCtrlRequest {
    /// The communication type byte (message kinds and subnet).
    pub comm_type: u8,
    pub node_id: Option<u16>,
}

/// What CommunicationControl last set.
#[derive(Debug, Clone, Copy, PartialEq, Eq, Structural)]
pub struct CommunicationControlState {
    pub ctrl_type: CommunicationCtrlType,
    pub comm_type: u8,
    pub node_id: Option<u16>,
}

/// Normal and network management messages, received and sent.
pub open spec fn default_comm_state() -> CommunicationControlState {
    CommunicationControlState {
        ctrl_type: CommunicationCtrlType::EnableRxAndTx,
        comm_type: 0x03,
        node_id: None,
    }
}

impl CommunicationControlState {
    /// The state after power-up and after a reset.
    pub fn initial() -> (s: CommunicationControlState)
        ensures
            s == default_comm_state(),
    {
        CommunicationControlState {
            ctrl_type: CommunicationCtrlType::EnableRxAndTx,
            comm_type: 0x03,
            node_id: None,
        }
    }
}

/// The sub-functions of ControlDTCSetting (0x85).
#[derive(Debug, Clone, Copy, PartialEq, Eq, Structural)]
pub enum DtcSettingType {
    On,
    Off,
    VehicleManufacturerSpecific(u8),
    SystemSupplierSpecific(u8),
    Reserved(u8),
}

/// The control parameters of InputOutputControlByIdentifier (0x2F).
#[derive(Debug, Clone, Copy, PartialEq, Eq, Structural)]
pub enum IoCtrlParameter {
    ReturnControlToEcu,
    ResetToDefault,
    FreezeCurrentState,
    ShortTermAdjustment,
}

/// An InputOutputControlByIdentifier request.
#[derive(Debug, Clone)]
pub struct IoCtrlRequest {
    pub did: u16,
    pub param: IoCtrlParameter,
    pub state: Vec<u8>,
    /// The control enable mask.
    pub mask: Vec<u8>,
}

/// The answer to InputOutputControlByIdentifier.
#[derive(Debug, Clone)]
pub struct IoCtrlResponse {
    pub did: u16,
    pub param: IoCtrlParameter,
    pub state: Vec<u8>,
}

/// The sub-functions of RoutineControl (0x31).
#[derive(Debug, Clone, Copy, PartialEq, Eq, Structural)]
pub enum RoutineCtrlType {
    StartRoutine,
    StopRoutine,
    RequestRoutineResults,
}

/// The routine identifier CheckProgrammingDependencies.
pub const CHECK_PROGRAMMING_DEPENDENCIES: u16 = 0xFF01;

/// The answer to RoutineControl.
#[derive(Debug, Clone)]
pub struct RoutineCtrlResponse {
    pub routine_id: u16,
    pub routine_info: Option<u8>,
    pub routine_status: Vec<u8>,
}

/// A memory area: its address-and-length format byte, address and size.
#[derive(Debug, Clone, Copy, PartialEq, Eq, Structural)]
pub struct MemoryLocation {
    pub alfi: u8,
    pub mem_addr: u128,
    pub mem_size: u128,
}

/// Which way a transfer goes.
#[derive(Debug, Clone, Copy, PartialEq, Eq, Structural)]
pub enum TransferDirection {
    Download,
    Upload,
}

/// The transfer in progress.
#[derive(Debug, Clone, Copy, PartialEq, Eq, Structural)]
pub struct TransferMeta {
    pub direction: TransferDirection,
    /// The data format identifier (compression and encryption nibbles).
    pub dfi: u8,
    pub mem_loc: MemoryLocation,
    pub max_num_of_block_len: u128,
    pub next_sequence: u8,
    pub transferred: u128,
}

/// The answer to RequestDownload and RequestUpload.
#[derive(Debug, Clone, Copy, PartialEq, Eq, Structural)]
pub struct RequestLoadResponse {
    pub max_num_of_block_len: u128,
}

/// The answer to TransferData.
#[derive(Debug, Clone)]
pub struct TransferDataResponse {
    pub sequence: u8,
    pub data: Vec<u8>,
}

/// The sub-functions of AccessTimingParameter (0x83).
#[derive(Debug, Clone, Copy, PartialEq, Eq, Structural)]
pub enum TimingParameterAccessType {
    ReadExtendedTimingParameterSet,
    SetTimingParametersToDefaultValues,
    ReadCurrentlyActiveTimingParameters,
    SetTimingParametersToGivenValues,
}

/// The state of a diagnostic server.
pub struct Context {
    pub config: Config,
    /// Values written to static data identifiers.
    pub did_st: HashMap<u16, Vec<u8>>,
    /// Values written to dynamic data identifiers.
    pub did_dyn: HashMap<u16, Vec<u8>>,
    /// The security access level whose seed was sent, with that seed.
    pub sa_ctx: Option<(u8, Vec<u8>)>,
    /// Downloaded memory, by location: one entry per location.
    pub memories: Vec<(MemoryLocation, Vec<u8>)>,
    pub dtcs: Vec<DtcRecord>,
    pub dtc_setting_enabled: bool,
    pub active_timing: SessionTiming,
    pub comm_ctrl_state: CommunicationControlState,
    /// The results of started routines, by routine identifier.
    pub routine_results: HashMap<u16, Vec<u8>>,
    pub transfer_meta: Option<TransferMeta>,
}

/// The mathematical value of a [`Context`].
pub struct ContextView {
    pub config: Config,
    pub did_st: Map<u16, Seq<u8>>,
    pub did_dyn: Map<u16, Seq<u8>>,
    pub sa_ctx: Option<(u8, Seq<u8>)>,
    pub memories: Map<MemoryLocation, Seq<u8>>,
    pub dtcs: Seq<DtcRecordView>,
    pub dtc_setting_enabled: bool,
    pub active_timing: SessionTiming,
    pub comm_ctrl_state: CommunicationControlState,
    pub routine_results: Map<u16, Seq<u8>>,
    pub transfer_meta: Option<TransferMeta>,
}

pub open spec fn bytes_map(m: Map<u16, Vec<u8>>) -> Map<u16, Seq<u8>> {
    m.map_values(|v: Vec<u8>| v@)
}

/// The memory that a list of (location, bytes) entries holds; a later entry
/// for a location replaces an earlier one.
pub open spec fn mem_map(s: Seq<(MemoryLocation, Vec<u8>)>) -> Map<MemoryLocation, Seq<u8>>
    decreases s.len(),
{
    if s.len() == 0 {
        Map::empty()
    } else {
        mem_map(s.drop_last()).insert(s.last().0, s.last().1@)
    }
}

pub open spec fn mem_unique(s: Seq<(MemoryLocation, Vec<u8>)>) -> bool {
    forall|i: int, j: int| 0 <= i < j < s.len() ==> #[trigger] s[i].0 != #[trigger] s[j].0
}

impl View for Context {
    type V = ContextView;

    open spec fn view(&self) -> ContextView {
        ContextView {
            config: self.config,
            did_st: bytes_map(self.did_st@),
            did_dyn: bytes_map(self.did_dyn@),
            sa_ctx: match self.sa_ctx {
                Some(c) => Some((c.0, c.1@)),
                None => None,
            },
            memories: mem_map(self.memories@),
            dtcs: records_view(self.dtcs@),
            dtc_setting_enabled: self.dtc_setting_enabled,
            active_timing: self.active_timing,
            comm_ctrl_state: self.comm_ctrl_state,
            routine_results: bytes_map(self.routine_results@),
            transfer_meta: self.transfer_meta,
        }
    }
}

/// A transfer in progress has a positive length and has not moved more.
pub open spec fn meta_wf(m: Option<TransferMeta>) -> bool {
    m matches Some(t) ==> 0 < t.max_num_of_block_len && t.transferred <= t.max_num_of_block_len
}

/// The value that reading data identifier `did` gives: the value written
/// last, else zeros of the configured length; none if it is not configured
/// and was never written.
pub open spec fn did_value(written: Map<u16, Seq<u8>>, cfg: Configuration, did: u16) -> Option<
    Seq<u8>,
> {
    if written.contains_key(did) {
        Some(written[did])
    } else if cfg.did@.contains_key(did) {
        Some(Seq::new(cfg.did@[did] as nat, |i: int| 0u8))
    } else {
        None
    }
}

pub open spec fn opt_bytes(o: Option<Vec<u8>>) -> Option<Seq<u8>> {
    match o {
        Some(v) => Some(v@),
        None => None,
    }
}

/// `data` may be written to `did`: it is configured with that length.
pub open spec fn did_fits(cfg: Configuration, did: u16, len: nat) -> bool {
    cfg.did@.contains_key(did) && cfg.did@[did] == len
}

/// The value of a memory area, empty when nothing was written to it.
pub open spec fn memory_or_empty(m: Map<MemoryLocation, Seq<u8>>, loc: MemoryLocation) -> Seq<u8> {
    if m.contains_key(loc) {
        m[loc]
    } else {
        Seq::empty()
    }
}

pub open spec fn next_seq(s: u8) -> u8 {
    if s == 255 {
        0
    } else {
        (s + 1) as u8
    }
}

/// One TransferData request on state `v`: the answer (echoed sequence and
/// uploaded bytes) and the state after it.
pub open spec fn transfer_step(v: ContextView, sequence: u8, data: Seq<u8>) -> (
    Result<(u8, Seq<u8>), Nrc>,
    ContextView,
) {
    match v.transfer_meta {
        None => (Err(Nrc::RequestSequenceError), v),
        Some(m) => {
            let remaining = m.max_num_of_block_len - m.transferred;
            if sequence != m.next_sequence {
                (Err(Nrc::WrongBlockSequenceCounter), v)
            } else {
                match m.direction {
                    TransferDirection::Download => {
                        if data.len() == 0 || data.len() > remaining {
                            (Err(Nrc::RequestOutOfRange), v)
                        } else {
                            let m2 = TransferMeta {
                                transferred: (m.transferred + data.len()) as u128,
                                next_sequence: next_seq(m.next_sequence),
                                ..m
                            };
                            (
                                Ok((sequence, Seq::empty())),
                                ContextView {
                                    memories: v.memories.insert(
                                        m.mem_loc,
                                        memory_or_empty(v.memories, m.mem_loc) + data,
                                    ),
                                    transfer_meta: Some(m2),
                                    ..v
                                },
                            )
                        }
                    },
                    TransferDirection::Upload => {
                        if !v.memories.contains_key(m.mem_loc) || v.memories[m.mem_loc].len()
                            < m.max_num_of_block_len {
                            (Err(Nrc::RequestOutOfRange), v)
                        } else if data.len() != 0 || remaining == 0 {
                            (Err(Nrc::RequestSequenceError), v)
                        } else {
                            let m2 = TransferMeta {
                                transferred: m.max_num_of_block_len,
                                next_sequence: next_seq(m.next_sequence),
                                ..m
                            };
                            (
                                Ok(
                                    (
                                        sequence,
                                        v.memories[m.mem_loc].subrange(
                                            m.transferred as int,
                                            m.max_num_of_block_len as int,
                                        ),
                                    ),
                                ),
                                ContextView { transfer_meta: Some(m2), ..v },
                            )
                        }
                    },
                }
            }
        },
    }
}

/// The state after a reset: as after power-up, except that the static data
/// identifiers and the memory stay.
pub open spec fn reset_view(v: ContextView) -> ContextView {
    ContextView {
        did_dyn: Map::empty(),
        sa_ctx: None,
        dtcs: Seq::empty(),
        dtc_setting_enabled: true,
        active_timing: v.config.timing,
        comm_ctrl_state: default_comm_state(),
        routine_results: Map::empty(),
        transfer_meta: None,
        ..v
    }
}

/// Extending the entry list by a location extends the memory by it.
proof fn lemma_mem_push(s: Seq<(MemoryLocation, Vec<u8>)>, e: (MemoryLocation, Vec<u8>))
    ensures
        mem_map(s.push(e)) == mem_map(s).insert(e.0, e.1@),
{
    assert(s.push(e).drop_last() =~= s);
}

/// What the entry list says of a location that it holds.
proof fn lemma_mem_lookup(s: Seq<(MemoryLocation, Vec<u8>)>, i: int)
    requires
        mem_unique(s),
        0 <= i < s.len(),
    ensures
        mem_map(s).contains_key(s[i].0),
        mem_map(s)[s[i].0] == s[i].1@,
    decreases s.len(),
{
    if i < s.len() - 1 {
        lemma_mem_lookup(s.drop_last(), i);
        assert(s.drop_last()[i] == s[i]);
        assert(s[i].0 != s[s.len() - 1].0);
    }
}

/// A location that no entry holds is not in the memory.
proof fn lemma_mem_absent(s: Seq<(MemoryLocation, Vec<u8>)>, loc: MemoryLocation)
    requires
        forall|i: int| 0 <= i < s.len() ==> (#[trigger] s[i]).0 != loc,
    ensures
        !mem_map(s).contains_key(loc),
    decreases s.len(),
{
    if s.len() > 0 {
        lemma_mem_absent(s.drop_last(), loc);
        assert(s[s.len() - 1].0 != loc);
    }
}

/// Replacing the entry of a location replaces its memory.
proof fn lemma_mem_update(s: Seq<(MemoryLocation, Vec<u8>)>, i: int, v: Vec<u8>)
    requires
        mem_unique(s),
        0 <= i < s.len(),
    ensures
        mem_map(s.update(i, (s[i].0, v))) == mem_map(s).insert(s[i].0, v@),
        mem_unique(s.update(i, (s[i].0, v))),
    decreases s.len(),
{
    let t = s.update(i, (s[i].0, v));
    assert forall|a: int, b: int| 0 <= a < b < t.len() implies #[trigger] t[a].0 != #[trigger] t[b].0 by {
        assert(t[a].0 == s[a].0 && t[b].0 == s[b].0);
    }
    if i == s.len() - 1 {
        assert(t.drop_last() =~= s.drop_last());
        assert(mem_map(s).insert(s[i].0, v@) =~= mem_map(s.drop_last()).insert(s[i].0, v@));
    } else {
        lemma_mem_update(s.drop_last(), i, v);
        assert(t.drop_last() =~= s.drop_last().update(i, (s[i].0, v)));
        assert(s[i].0 != s[s.len() - 1].0);
        assert(mem_map(t) =~= mem_map(s).insert(s[i].0, v@));
    }
}


/// The answer to RoutineControl and the state after it. Only
/// CheckProgrammingDependencies is known: starting it (without option
/// record) stores the result 0x00, which a later request for results gives
/// back; stopping is not supported.
pub open spec fn routine_step(
    v: ContextView,
    t: RoutineCtrlType,
    routine_id: u16,
    option_record: Seq<u8>,
) -> (Result<(u16, Option<u8>, Seq<u8>), Nrc>, ContextView) {
    if routine_id != CHECK_PROGRAMMING_DEPENDENCIES {
        (Err(Nrc::RequestOutOfRange), v)
    } else {
        match t {
            RoutineCtrlType::StartRoutine => if option_record.len() != 0 {
                (Err(Nrc::RequestOutOfRange), v)
            } else {
                (
                    Ok((routine_id, Some(0u8), seq![0u8])),
                    ContextView {
                        routine_results: v.routine_results.insert(routine_id, seq![0u8]),
                        ..v
                    },
                )
            },
            RoutineCtrlType::RequestRoutineResults => if v.routine_results.contains_key(
                routine_id,
            ) {
                (Ok((routine_id, Some(0u8), v.routine_results[routine_id])), v)
            } else {
                (Err(Nrc::RequestSequenceError), v)
            },
            RoutineCtrlType::StopRoutine => (Err(Nrc::SubFunctionNotSupported), v),
        }
    }
}

pub open spec fn routine_view(r: Result<RoutineCtrlResponse, Nrc>) -> Result<
    (u16, Option<u8>, Seq<u8>),
    Nrc,
> {
    match r {
        Ok(x) => Ok((x.routine_id, x.routine_info, x.routine_status@)),
        Err(e) => Err(e),
    }
}

/// RequestDownload and RequestUpload: only the plain data format (no
/// compression, no encryption) is accepted, for a memory area of positive
/// size; the transfer then starts at sequence 1 with nothing moved.
pub open spec fn start_transfer_step(
    v: ContextView,
    direction: TransferDirection,
    dfi: u8,
    mem_loc: MemoryLocation,
) -> (Result<RequestLoadResponse, Nrc>, ContextView) {
    if dfi != 0 {
        (Err(Nrc::UploadDownloadNotAccepted), v)
    } else if mem_loc.mem_size == 0 {
        (Err(Nrc::RequestOutOfRange), v)
    } else {
        (
            Ok(RequestLoadResponse { max_num_of_block_len: mem_loc.mem_size }),
            ContextView {
                transfer_meta: Some(
                    TransferMeta {
                        direction,
                        dfi,
                        mem_loc,
                        max_num_of_block_len: mem_loc.mem_size,
                        next_sequence: 1,
                        transferred: 0,
                    },
                ),
                ..v
            },
        )
    }
}

/// RequestTransferExit: accepted once the transfer in progress has moved
/// all of its length; it echoes the request's parameter and ends the
/// transfer.
pub open spec fn transfer_exit_step(v: ContextView, data: Seq<u8>) -> (
    Result<Seq<u8>, Nrc>,
    ContextView,
) {
    match v.transfer_meta {
        Some(m) => if m.transferred == m.max_num_of_block_len {
            (Ok(data), ContextView { transfer_meta: None, ..v })
        } else {
            (Err(Nrc::RequestSequenceError), v)
        },
        None => (Err(Nrc::RequestSequenceError), v),
    }
}

/// A big-endian 16-bit value.
pub open spec fn be_u16(hi: u8, lo: u8) -> u16 {
    (hi as int * 256 + lo as int) as u16
}

/// AccessTimingParameter: reads the timing in force, resets it to the
/// configured one (without parameter), or sets it to a given P2 and P2*
/// (four bytes, within the maxima); the extended parameter set is not
/// supported.
pub open spec fn timing_step(v: ContextView, t: TimingParameterAccessType, data: Seq<u8>) -> (
    Result<Seq<u8>, Nrc>,
    ContextView,
) {
    match t {
        TimingParameterAccessType::ReadCurrentlyActiveTimingParameters => (
            Ok(super::uds_codec::timing_bytes(v.active_timing)),
            v,
        ),
        TimingParameterAccessType::SetTimingParametersToDefaultValues => if data.len() != 0 {
            (Err(Nrc::IncorrectMessageLengthOrInvalidFormat), v)
        } else {
            (Ok(Seq::empty()), ContextView { active_timing: v.config.timing, ..v })
        },
        TimingParameterAccessType::SetTimingParametersToGivenValues => if data.len() != 4 {
            (Err(Nrc::IncorrectMessageLengthOrInvalidFormat), v)
        } else {
            let p2 = be_u16(data[0], data[1]);
            let p2_star = be_u16(data[2], data[3]);
            if p2 > P2_MAX || p2_star > P2_STAR_MAX {
                (Err(Nrc::RequestOutOfRange), v)
            } else {
                (
                    Ok(Seq::empty()),
                    ContextView { active_timing: SessionTiming { p2, p2_star }, ..v },
                )
            }
        },
        TimingParameterAccessType::ReadExtendedTimingParameterSet => (
            Err(Nrc::SubFunctionNotSupported),
            v,
        ),
    }
}

pub open spec fn bytes_result(r: Result<Vec<u8>, Nrc>) -> Result<Seq<u8>, Nrc> {
    match r {
        Ok(v) => Ok(v@),
        Err(e) => Err(e),
    }
}

/// The group of all DTCs.
pub const ALL_DTC_GROUP: u32 = 0xFF_FFFF;

/// ReadDataByIdentifier over `dids`, in order: each identifier and its
/// value; refused at the first identifier that is unknown or that needs
/// another security access level than `level`.
pub open spec fn read_did_data(v: ContextView, dids: Seq<u16>, level: u8) -> Result<Seq<u8>, Nrc>
    decreases dids.len(),
{
    if dids.len() == 0 {
        Ok(Seq::empty())
    } else {
        match read_did_data(v, dids.drop_last(), level) {
            Err(e) => Err(e),
            Ok(acc) => {
                let did = dids.last();
                match did_value(v.did_st, v.config.cfg, did) {
                    None => Err(Nrc::RequestOutOfRange),
                    Some(val) => if v.config.did_sa_level@.contains_key(did)
                        && v.config.did_sa_level@[did] != level {
                        Err(Nrc::SecurityAccessDenied)
                    } else {
                        Ok(acc + seq![(did / 256) as u8, (did % 256) as u8] + val)
                    },
                }
            },
        }
    }
}

/// The whole ReadDataByIdentifier answer: an empty list is malformed.
pub open spec fn read_did_answer(v: ContextView, dids: Seq<u16>, level: u8) -> Result<
    Seq<u8>,
    Nrc,
> {
    if dids.len() == 0 {
        Err(Nrc::IncorrectMessageLengthOrInvalidFormat)
    } else {
        match read_did_data(v, dids, level) {
            Ok(d) => if d.len() == 0 {
                Err(Nrc::RequestOutOfRange)
            } else {
                Ok(d)
            },
            Err(e) => Err(e),
        }
    }
}

/// Once ReadDataByIdentifier refuses a prefix of the list, it refuses the
/// whole list with the same code.
proof fn lemma_read_did_err_extends(v: ContextView, dids: Seq<u16>, j: int, level: u8)
    requires
        0 <= j <= dids.len(),
        read_did_data(v, dids.take(j), level) is Err,
    ensures
        read_did_data(v, dids, level) == read_did_data(v, dids.take(j), level),
    decreases dids.len() - j,
{
    if j < dids.len() {
        assert(dids.take(j + 1).drop_last() =~= dids.take(j));
        lemma_read_did_err_extends(v, dids, j + 1, level);
    } else {
        assert(dids.take(j) =~= dids);
    }
}

impl Context {
    /// The invariant of the state: one entry per memory location, and a
    /// transfer in progress within its length.
    pub open spec fn wf(&self) -> bool {
        &&& mem_unique(self.memories@)
        &&& meta_wf(self.transfer_meta)
    }

    /// A server state for `config`: nothing written, DTC setting on, the
    /// configured timing, default communication, no transfer.
    pub fn new(config: Config) -> (ctx: Context)
        ensures
            ctx.wf(),
            ctx@ == (ContextView {
                config,
                did_st: Map::empty(),
                did_dyn: Map::empty(),
                sa_ctx: None,
                memories: Map::empty(),
                dtcs: Seq::empty(),
                dtc_setting_enabled: true,
                active_timing: config.timing,
                comm_ctrl_state: default_comm_state(),
                routine_results: Map::empty(),
                transfer_meta: None,
            }),
    {
        let active_timing = config.timing;
        let ctx = Context {
            config,
            did_st: HashMap::new(),
            did_dyn: HashMap::new(),
            sa_ctx: None,
            memories: Vec::new(),
            dtcs: Vec::new(),
            dtc_setting_enabled: true,
            active_timing,
            comm_ctrl_state: CommunicationControlState::initial(),
            routine_results: HashMap::new(),
            transfer_meta: None,
        };
        assert(bytes_map(ctx.did_st@) =~= Map::empty());
        assert(bytes_map(ctx.did_dyn@) =~= Map::empty());
        assert(bytes_map(ctx.routine_results@) =~= Map::empty());
        assert(records_view(ctx.dtcs@) =~= Seq::empty());
        ctx
    }

    /// Back to the state after power-up, except for the static data
    /// identifiers and the memory, which stay.
    pub fn reset(&mut self)
        requires
            old(self).wf(),
        ensures
            final(self).wf(),
            final(self)@ == reset_view(old(self)@),
    {
        self.did_dyn.clear();
        self.sa_ctx = None;
        self.dtcs = Vec::new();
        self.dtc_setting_enabled = true;
        self.active_timing = self.config.timing;
        self.comm_ctrl_state = CommunicationControlState::initial();
        self.routine_results.clear();
        self.transfer_meta = None;
        assert(bytes_map(self.did_dyn@) =~= Map::empty());
        assert(bytes_map(self.routine_results@) =~= Map::empty());
        assert(records_view(self.dtcs@) =~= Seq::empty());
    }

    /// The timing in force.
    pub fn get_active_timing(&self) -> (t: SessionTiming)
        ensures
            t == self@.active_timing,
    {
        self.active_timing
    }

    /// The data configuration.
    pub fn get_cfg(&self) -> (c: &Configuration)
        ensures
            *c == self@.config.cfg,
    {
        &self.config.cfg
    }

    /// The salt for the security algorithm.
    pub fn get_security_salt(&self) -> (s: &[u8])
        ensures
            s@ == self@.config.sa_salt@,
    {
        self.config.sa_salt.as_slice()
    }

    /// The security access level that reading `did` needs, if any.
    pub fn get_static_did_sa_level(&self, did: u16) -> (l: Option<u8>)
        ensures
            l == (if self@.config.did_sa_level@.contains_key(did) {
                Some(self@.config.did_sa_level@[did])
            } else {
                None::<u8>
            }),
    {
        match self.config.did_sa_level.get(&did) {
            Some(l) => Some(*l),
            None => None,
        }
    }

    /// Writes `data` to static data identifier `did` if it is configured
    /// with that length; says whether it did.
    pub fn set_static_did(&mut self, did: u16, data: &[u8]) -> (ok: bool)
        requires
            old(self).wf(),
        ensures
            final(self).wf(),
            ok == did_fits(old(self)@.config.cfg, did, data@.len()),
            final(self)@ == (if ok {
                ContextView { did_st: old(self)@.did_st.insert(did, data@), ..old(self)@ }
            } else {
                old(self)@
            }),
    {
        let fits = match self.config.cfg.did.get(&did) {
            Some(len) => *len == data.len(),
            None => false,
        };
        if fits {
            let ghost before = self.did_st@;
            self.did_st.insert(did, vstd::slice::slice_to_vec(data));
            assert(bytes_map(self.did_st@) =~= bytes_map(before).insert(did, data@));
        }
        fits
    }

    /// Writes `data` to dynamic data identifier `did` if it is configured
    /// with that length; says whether it did.
    pub fn set_dynamic_did(&mut self, did: u16, data: &[u8]) -> (ok: bool)
        requires
            old(self).wf(),
        ensures
            final(self).wf(),
            ok == did_fits(old(self)@.config.cfg, did, data@.len()),
            final(self)@ == (if ok {
                ContextView { did_dyn: old(self)@.did_dyn.insert(did, data@), ..old(self)@ }
            } else {
                old(self)@
            }),
    {
        let fits = match self.config.cfg.did.get(&did) {
            Some(len) => *len == data.len(),
            None => false,
        };
        if fits {
            let ghost before = self.did_dyn@;
            self.did_dyn.insert(did, vstd::slice::slice_to_vec(data));
            assert(bytes_map(self.did_dyn@) =~= bytes_map(before).insert(did, data@));
        }
        fits
    }

    /// Reads a data identifier from `written`, falling back on zeros of the
    /// configured length.
    fn did_get_util(&self, written: &HashMap<u16, Vec<u8>>, did: u16) -> (v: Option<Vec<u8>>)
        ensures
            opt_bytes(v) == did_value(bytes_map(written@), self@.config.cfg, did),
    {
        match written.get(&did) {
            Some(data) => Some(copy_bytes(data)),
            None => match self.config.cfg.did.get(&did) {
                Some(len) => Some(zeros(*len)),
                None => None,
            },
        }
    }

    /// The value of static data identifier `did`.
    pub fn get_static_did(&self, did: u16) -> (v: Option<Vec<u8>>)
        ensures
            opt_bytes(v) == did_value(self@.did_st, self@.config.cfg, did),
    {
        self.did_get_util(&self.did_st, did)
    }

    /// The value of dynamic data identifier `did`.
    pub fn get_dynamic_did(&self, did: u16) -> (v: Option<Vec<u8>>)
        ensures
            opt_bytes(v) == did_value(self@.did_dyn, self@.config.cfg, did),
    {
        self.did_get_util(&self.did_dyn, did)
    }

    /// The transfer in progress, if any.
    pub fn transfer_meta(&self) -> (m: Option<TransferMeta>)
        ensures
            m == self@.transfer_meta,
    {
        self.transfer_meta
    }

    /// The bytes held for memory area `loc`, if any.
    pub fn memory(&self, loc: MemoryLocation) -> (m: Option<Vec<u8>>)
        requires
            self.wf(),
        ensures
            match m {
                Some(d) => self@.memories.contains_key(loc) && d@ == self@.memories[loc],
                None => !self@.memories.contains_key(loc),
            },
    {
        match self.find_memory(loc) {
            Some(i) => Some(copy_bytes(&self.memories[i].1)),
            None => None,
        }
    }

    /// Holds `data` for memory area `loc`, in place of what it held.
    pub fn store_memory(&mut self, loc: MemoryLocation, data: Vec<u8>)
        requires
            old(self).wf(),
        ensures
            final(self).wf(),
            final(self)@ == (ContextView {
                memories: old(self)@.memories.insert(loc, data@),
                ..old(self)@
            }),
    {
        match self.find_memory(loc) {
            Some(i) => {
                proof {
                    lemma_mem_update(self.memories@, i as int, data);
                }
                self.memories.set(i, (loc, data));
            },
            None => {
                proof {
                    lemma_mem_push(self.memories@, (loc, data));
                    assert forall|a: int, b: int|
                        0 <= a < b < self.memories@.push((loc, data)).len() implies
                        #[trigger] self.memories@.push((loc, data))[a].0
                        != #[trigger] self.memories@.push((loc, data))[b].0 by {
                        if b == self.memories@.len() {
                            lemma_mem_lookup(self.memories@, a);
                        }
                    }
                }
                self.memories.push((loc, data));
            },
        }
    }

    /// The stored DTCs.
    pub fn dtc_records(&self) -> (r: &Vec<DtcRecord>)
        ensures
            records_view(r@) == self@.dtcs,
    {
        &self.dtcs
    }

    /// Replaces the stored DTCs.
    pub fn replace_dtcs(&mut self, dtcs: Vec<DtcRecord>)
        requires
            old(self).wf(),
        ensures
            final(self).wf(),
            final(self)@ == (ContextView { dtcs: records_view(dtcs@), ..old(self)@ }),
    {
        self.dtcs = dtcs;
    }

    /// Whether DTC status updates are on.
    pub fn dtc_setting_enabled(&self) -> (b: bool)
        ensures
            b == self@.dtc_setting_enabled,
    {
        self.dtc_setting_enabled
    }

    /// What CommunicationControl last set.
    pub fn communication_ctrl_state(&self) -> (s: CommunicationControlState)
        ensures
            s == self@.comm_ctrl_state,
    {
        self.comm_ctrl_state
    }

    /// ControlDTCSetting: on and off switch DTC status updates and are
    /// echoed; other sub-functions are not supported.
    pub fn set_dtc_setting(&mut self, setting: DtcSettingType) -> (res: Result<DtcSettingType, Nrc>)
        requires
            old(self).wf(),
        ensures
            final(self).wf(),
            match setting {
                DtcSettingType::On => res == Ok::<DtcSettingType, Nrc>(setting) && final(self)@ == (
                ContextView { dtc_setting_enabled: true, ..old(self)@ }),
                DtcSettingType::Off => res == Ok::<DtcSettingType, Nrc>(setting) && final(self)@
                    == (ContextView { dtc_setting_enabled: false, ..old(self)@ }),
                _ => res == Err::<DtcSettingType, Nrc>(Nrc::SubFunctionNotSupported) && final(self)@ == old(self)@,
            },
    {
        let enabled = match setting {
            DtcSettingType::On => true,
            DtcSettingType::Off => false,
            _ => return Err(Nrc::SubFunctionNotSupported),
        };
        self.dtc_setting_enabled = enabled;
        Ok(setting)
    }

    /// CommunicationControl: the six standard control types are recorded
    /// with the request's communication type and node; others are refused.
    pub fn communication_ctrl(
        &mut self,
        ctrl_type: CommunicationCtrlType,
        ctrl: &CommunicationCtrlRequest,
    ) -> (res: Result<(), Nrc>)
        requires
            old(self).wf(),
        ensures
            final(self).wf(),
            match ctrl_type {
                CommunicationCtrlType::VehicleManufacturerSpecific(_)
                | CommunicationCtrlType::SystemSupplierSpecific(_)
                | CommunicationCtrlType::Reserved(_) => res == Err::<(), Nrc>(
                    Nrc::SubFunctionNotSupported,
                ) && final(self)@ == old(self)@,
                _ => res == Ok::<(), Nrc>(()) && final(self)@ == (ContextView {
                    comm_ctrl_state: CommunicationControlState {
                        ctrl_type,
                        comm_type: ctrl.comm_type,
                        node_id: ctrl.node_id,
                    },
                    ..old(self)@
                }),
            },
    {
        match ctrl_type {
            CommunicationCtrlType::VehicleManufacturerSpecific(_)
            | CommunicationCtrlType::SystemSupplierSpecific(_)
            | CommunicationCtrlType::Reserved(_) => Err(Nrc::SubFunctionNotSupported),
            _ => {
                self.comm_ctrl_state =
                CommunicationControlState {
                    ctrl_type,
                    comm_type: ctrl.comm_type,
                    node_id: ctrl.node_id,
                };
                Ok(())
            },
        }
    }

    /// InputOutputControlByIdentifier: only a short-term adjustment without
    /// control mask, of a configured data identifier with a state of its
    /// length, is accepted; it writes the state to the static identifier.
    pub fn io_ctrl(&mut self, ctrl: &IoCtrlRequest) -> (res: Result<IoCtrlResponse, Nrc>)
        requires
            old(self).wf(),
        ensures
            final(self).wf(),
            ({
                let accepted = ctrl.mask@.len() == 0 && ctrl.param
                    == IoCtrlParameter::ShortTermAdjustment && did_fits(
                    old(self)@.config.cfg,
                    ctrl.did,
                    ctrl.state@.len(),
                );
                if accepted {
                    &&& res matches Ok(r)
                    &&& r.did == ctrl.did
                    &&& r.param == ctrl.param
                    &&& r.state@ == ctrl.state@
                    &&& final(self)@ == (ContextView {
                        did_st: old(self)@.did_st.insert(ctrl.did, ctrl.state@),
                        ..old(self)@
                    })
                } else {
                    res == Err::<IoCtrlResponse, Nrc>(Nrc::RequestOutOfRange) && final(self)@ == old(self)@
                }
            }),
    {
        if ctrl.mask.len() != 0 {
            return Err(Nrc::RequestOutOfRange);
        }
        if ctrl.param != IoCtrlParameter::ShortTermAdjustment {
            return Err(Nrc::RequestOutOfRange);
        }
        if !self.set_static_did(ctrl.did, ctrl.state.as_slice()) {
            return Err(Nrc::RequestOutOfRange);
        }
        if self.get_static_did(ctrl.did).is_none() {
            return Err(Nrc::RequestOutOfRange);
        }
        Ok(IoCtrlResponse { did: ctrl.did, param: ctrl.param, state: copy_bytes(&ctrl.state) })
    }

    /// RoutineControl, as `routine_step` says.
    pub fn routine_ctrl(&mut self, t: RoutineCtrlType, routine_id: u16, option_record: &[u8]) -> (res:
        Result<RoutineCtrlResponse, Nrc>)
        requires
            old(self).wf(),
        ensures
            final(self).wf(),
            (routine_view(res), final(self)@) == routine_step(
                old(self)@,
                t,
                routine_id,
                option_record@,
            ),
    {
        if routine_id != CHECK_PROGRAMMING_DEPENDENCIES {
            return Err(Nrc::RequestOutOfRange);
        }
        match t {
            RoutineCtrlType::StartRoutine => {
                if option_record.len() != 0 {
                    return Err(Nrc::RequestOutOfRange);
                }
                let result: Vec<u8> = vec![0x00];
                assert(result@ =~= seq![0u8]);
                let ghost before = self.routine_results@;
                let stored = copy_bytes(&result);
                self.routine_results.insert(routine_id, stored);
                assert(bytes_map(self.routine_results@) =~= bytes_map(before).insert(
                    routine_id,
                    seq![0u8],
                ));
                match super::uds_codec::new_routine_ctrl_response(routine_id, Some(0x00), result) {
                    Ok(r) => Ok(r),
                    Err(_) => Err(Nrc::GeneralReject),
                }
            },
            RoutineCtrlType::RequestRoutineResults => {
                let result = match self.routine_results.get(&routine_id) {
                    Some(r) => copy_bytes(r),
                    None => return Err(Nrc::RequestSequenceError),
                };
                match super::uds_codec::new_routine_ctrl_response(routine_id, Some(0x00), result) {
                    Ok(r) => Ok(r),
                    Err(_) => Err(Nrc::GeneralReject),
                }
            },
            RoutineCtrlType::StopRoutine => Err(Nrc::SubFunctionNotSupported),
        }
    }

    /// Starts a transfer, as `start_transfer_step` says.
    fn start_transfer(&mut self, direction: TransferDirection, dfi: u8, mem_loc: MemoryLocation) -> (res:
        Result<TransferMeta, Nrc>)
        requires
            old(self).wf(),
        ensures
            final(self).wf(),
            final(self)@ == start_transfer_step(old(self)@, direction, dfi, mem_loc).1,
            match start_transfer_step(old(self)@, direction, dfi, mem_loc).0 {
                Ok(r) => res matches Ok(m) && final(self)@.transfer_meta == Some(m)
                    && m.max_num_of_block_len == r.max_num_of_block_len,
                Err(e) => res == Err::<TransferMeta, Nrc>(e),
            },
    {
        let compression = dfi >> 4u8;
        let encryption = dfi & 0x0Fu8;
        assert(compression == 0 && encryption == 0 <==> dfi == 0) by (bit_vector)
            requires
                compression == dfi >> 4u8,
                encryption == dfi & 0x0Fu8,
        ;
        if compression != 0 || encryption != 0 {
            return Err(Nrc::UploadDownloadNotAccepted);
        }
        let max_num_of_block_len = mem_loc.mem_size;
        if max_num_of_block_len == 0 {
            return Err(Nrc::RequestOutOfRange);
        }
        let meta = TransferMeta {
            direction,
            dfi,
            mem_loc,
            max_num_of_block_len,
            next_sequence: 1,
            transferred: 0,
        };
        self.transfer_meta = Some(meta);
        Ok(meta)
    }

    /// RequestDownload, as `start_transfer_step` says.
    pub fn request_download(&mut self, dfi: u8, mem_loc: MemoryLocation) -> (res: Result<
        RequestLoadResponse,
        Nrc,
    >)
        requires
            old(self).wf(),
        ensures
            final(self).wf(),
            (res, final(self)@) == start_transfer_step(
                old(self)@,
                TransferDirection::Download,
                dfi,
                mem_loc,
            ),
    {
        let meta = match self.start_transfer(TransferDirection::Download, dfi, mem_loc) {
            Ok(m) => m,
            Err(e) => return Err(e),
        };
        match super::uds_codec::new_request_download_response(meta.max_num_of_block_len) {
            Ok(r) => Ok(r),
            Err(_) => Err(Nrc::UploadDownloadNotAccepted),
        }
    }

    /// RequestUpload, as `start_transfer_step` says.
    pub fn request_upload(&mut self, dfi: u8, mem_loc: MemoryLocation) -> (res: Result<
        RequestLoadResponse,
        Nrc,
    >)
        requires
            old(self).wf(),
        ensures
            final(self).wf(),
            (res, final(self)@) == start_transfer_step(
                old(self)@,
                TransferDirection::Upload,
                dfi,
                mem_loc,
            ),
    {
        let meta = match self.start_transfer(TransferDirection::Upload, dfi, mem_loc) {
            Ok(m) => m,
            Err(e) => return Err(e),
        };
        match super::uds_codec::new_request_upload_response(meta.max_num_of_block_len) {
            Ok(r) => Ok(r),
            Err(_) => Err(Nrc::UploadDownloadNotAccepted),
        }
    }

    /// The index of the entry for `loc`.
    fn find_memory(&self, loc: MemoryLocation) -> (res: Option<usize>)
        requires
            self.wf(),
        ensures
            match res {
                Some(i) => i < self.memories.len() && self.memories@[i as int].0 == loc
                    && self@.memories.contains_key(loc) && self@.memories[loc]
                    == self.memories@[i as int].1@,
                None => !self@.memories.contains_key(loc),
            },
    {
        for i in 0..self.memories.len()
            invariant
                self.wf(),
                forall|k: int| 0 <= k < i ==> (#[trigger] self.memories@[k]).0 != loc,
        {
            if self.memories[i].0 == loc {
                proof {
                    lemma_mem_lookup(self.memories@, i as int);
                }
                return Some(i);
            }
        }
        proof {
            lemma_mem_absent(self.memories@, loc);
        }
        None
    }

    /// TransferData, as `transfer_step` says.
    pub fn transfer_data(&mut self, sequence: u8, data: &[u8]) -> (res: Result<
        TransferDataResponse,
        Nrc,
    >)
        requires
            old(self).wf(),
        ensures
            final(self).wf(),
            (
                match res {
                    Ok(r) => Ok((r.sequence, r.data@)),
                    Err(e) => Err(e),
                },
                final(self)@,
            ) == transfer_step(old(self)@, sequence, data@),
    {
        let mut meta = match self.transfer_meta {
            Some(m) => m,
            None => return Err(Nrc::RequestSequenceError),
        };
        if sequence != meta.next_sequence {
            return Err(Nrc::WrongBlockSequenceCounter);
        }
        let remaining = meta.max_num_of_block_len - meta.transferred;
        let resp_data: Vec<u8> = match meta.direction {
            TransferDirection::Download => {
                let chunk_len = data.len() as u128;
                if chunk_len == 0 || chunk_len > remaining {
                    return Err(Nrc::RequestOutOfRange);
                }
                let ghost before = self.memories@;
                match self.find_memory(meta.mem_loc) {
                    Some(i) => {
                        let mut buf = copy_bytes(&self.memories[i].1);
                        let ghost prefix = buf@;
                        buf.extend_from_slice(data);
                        assert(buf@ =~= prefix + data@);
                        proof {
                            lemma_mem_update(before, i as int, buf);
                        }
                        self.memories.set(i, (meta.mem_loc, buf));
                        assert(self.memories@ == before.update(i as int, (before[i as int].0, buf)));
                    },
                    None => {
                        let buf = vstd::slice::slice_to_vec(data);
                        proof {
                            lemma_mem_push(before, (meta.mem_loc, buf));
                            assert forall|a: int, b: int|
                                0 <= a < b < before.len() + 1 implies #[trigger] before.push(
                                (meta.mem_loc, buf),
                            )[a].0 != #[trigger] before.push((meta.mem_loc, buf))[b].0 by {
                                if b == before.len() {
                                    if before[a].0 == meta.mem_loc {
                                        lemma_mem_lookup(before, a);
                                    }
                                }
                            }
                        }
                        self.memories.push((meta.mem_loc, buf));
                        assert(memory_or_empty(mem_map(before), meta.mem_loc) + data@ =~= data@);
                    },
                }
                meta.transferred = meta.transferred + chunk_len;
                Vec::new()
            },
            TransferDirection::Upload => {
                let i = match self.find_memory(meta.mem_loc) {
                    Some(i) => i,
                    None => return Err(Nrc::RequestOutOfRange),
                };
                let memory = &self.memories[i].1;
                let memory_len = memory.len() as u128;
                if memory_len < meta.max_num_of_block_len {
                    return Err(Nrc::RequestOutOfRange);
                }
                if data.len() != 0 || remaining == 0 {
                    return Err(Nrc::RequestSequenceError);
                }
                let start = meta.transferred as usize;
                let end = (meta.transferred + remaining) as usize;
                let chunk = vstd::slice::slice_to_vec(
                    vstd::slice::slice_subrange(memory.as_slice(), start, end),
                );
                meta.transferred = meta.transferred + chunk.len() as u128;
                chunk
            },
        };
        meta.next_sequence = if meta.next_sequence == 255 {
            0
        } else {
            meta.next_sequence + 1
        };
        self.transfer_meta = Some(meta);
        Ok(TransferDataResponse { sequence, data: resp_data })
    }

    /// RequestTransferExit, as `transfer_exit_step` says.
    pub fn request_transfer_exit(&mut self, data: &[u8]) -> (res: Result<Vec<u8>, Nrc>)
        requires
            old(self).wf(),
        ensures
            final(self).wf(),
            (bytes_result(res), final(self)@) == transfer_exit_step(old(self)@, data@),
    {
        match self.transfer_meta {
            None => Err(Nrc::RequestSequenceError),
            Some(m) => {
                if m.transferred != m.max_num_of_block_len {
                    return Err(Nrc::RequestSequenceError);
                }
                self.transfer_meta = None;
                Ok(vstd::slice::slice_to_vec(data))
            },
        }
    }

    /// AccessTimingParameter, as `timing_step` says.
    pub fn access_timing_parameter(&mut self, t: TimingParameterAccessType, data: &[u8]) -> (res:
        Result<Vec<u8>, Nrc>)
        requires
            old(self).wf(),
        ensures
            final(self).wf(),
            (bytes_result(res), final(self)@) == timing_step(old(self)@, t, data@),
    {
        match t {
            TimingParameterAccessType::ReadCurrentlyActiveTimingParameters => {
                Ok(super::uds_codec::session_timing_to_bytes(self.active_timing))
            },
            TimingParameterAccessType::SetTimingParametersToDefaultValues => {
                if data.len() != 0 {
                    return Err(Nrc::IncorrectMessageLengthOrInvalidFormat);
                }
                self.active_timing = self.config.timing;
                Ok(Vec::new())
            },
            TimingParameterAccessType::SetTimingParametersToGivenValues => {
                if data.len() != 4 {
                    return Err(Nrc::IncorrectMessageLengthOrInvalidFormat);
                }
                let p2 = (data[0] as u16) * 256 + data[1] as u16;
                let p2_star = (data[2] as u16) * 256 + data[3] as u16;
                if p2 > P2_MAX || p2_star > P2_STAR_MAX {
                    return Err(Nrc::RequestOutOfRange);
                }
                self.active_timing = SessionTiming { p2, p2_star };
                Ok(Vec::new())
            },
            TimingParameterAccessType::ReadExtendedTimingParameterSet => {
                Err(Nrc::SubFunctionNotSupported)
            },
        }
    }

    /// ClearDiagnosticInformation: only the group of all DTCs, without a
    /// memory selection, is accepted; it removes every stored DTC.
    pub fn clear_diagnostic_info(&mut self, group: u32, memory_selection: Option<u8>) -> (res:
        Result<(), Nrc>)
        requires
            old(self).wf(),
        ensures
            final(self).wf(),
            if memory_selection is None && group == ALL_DTC_GROUP {
                res == Ok::<(), Nrc>(()) && final(self)@ == (ContextView {
                    dtcs: Seq::empty(),
                    ..old(self)@
                })
            } else {
                res == Err::<(), Nrc>(Nrc::RequestOutOfRange) && final(self)@ == old(self)@
            },
    {
        if memory_selection.is_some() {
            return Err(Nrc::RequestOutOfRange);
        }
        if group == ALL_DTC_GROUP {
            self.dtcs = Vec::new();
            assert(records_view(self.dtcs@) =~= Seq::empty());
            Ok(())
        } else {
            Err(Nrc::RequestOutOfRange)
        }
    }

    /// ReadDataByIdentifier over `dids` with security access level
    /// `level`, as `read_did_answer` says.
    pub fn read_did(&self, dids: &[u16], level: u8) -> (res: Result<Vec<u8>, Nrc>)
        ensures
            bytes_result(res) == read_did_answer(self@, dids@, level),
    {
        if dids.len() == 0 {
            return Err(Nrc::IncorrectMessageLengthOrInvalidFormat);
        }
        let mut data: Vec<u8> = Vec::new();
        for i in 0..dids.len()
            invariant
                read_did_data(self@, dids@.take(i as int), level) == Ok::<Seq<u8>, Nrc>(data@),
        {
            let did = dids[i];
            assert(dids@.take(i + 1).drop_last() =~= dids@.take(i as int));
            assert(dids@.take(i + 1).last() == did);
            let val = match self.get_static_did(did) {
                Some(v) => v,
                None => {
                    proof {
                        lemma_read_did_err_extends(self@, dids@, i + 1, level);
                    }
                    return Err(Nrc::RequestOutOfRange);
                },
            };
            match self.get_static_did_sa_level(did) {
                Some(required) => {
                    if required != level {
                        proof {
                            lemma_read_did_err_extends(self@, dids@, i + 1, level);
                        }
                        return Err(Nrc::SecurityAccessDenied);
                    }
                },
                None => {},
            }
            let ghost before = data@;
            data.push((did / 256) as u8);
            data.push((did % 256) as u8);
            data.extend_from_slice(val.as_slice());
            assert(data@ =~= before + seq![(did / 256) as u8, (did % 256) as u8] + val@);
        }
        assert(dids@.take(dids.len() as int) =~= dids@);
        if data.len() == 0 {
            Err(Nrc::RequestOutOfRange)
        } else {
            Ok(data)
        }
    }
}

/// A copy of a byte vector.
pub fn copy_bytes(v: &Vec<u8>) -> (c: Vec<u8>)
    ensures
        c@ == v@,
{
    let c = v.clone();
    assert(c@ =~= v@);
    c
}

/// `len` zero bytes.
pub fn zeros(len: usize) -> (z: Vec<u8>)
    ensures
        z@ == Seq::new(len as nat, |i: int| 0u8),
{
    let mut z: Vec<u8> = Vec::new();
    for i in 0..len
        invariant
            z@ == Seq::new(i as nat, |k: int| 0u8),
    {
        z.push(0);
        assert(z@ =~= Seq::new((i + 1) as nat, |k: int| 0u8));
    }
    z
}

} // verus!
