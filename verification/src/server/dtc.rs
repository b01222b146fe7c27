//! Stored diagnostic trouble codes and the reports of service 0x19
//! (ReadDTCInformation) that a server builds from them.
use std::collections::HashMap;
use vstd::prelude::*;

use crate::config::Configuration;
use crate::nrc::Nrc;

verus! {

/// The DTC format identifiers of ISO 14229-1.
#[derive(Debug, Clone, Copy, PartialEq, Eq, Structural)]
pub enum DtcFormat {
    SaeJ2012Da00,
    Iso14229_1,
    SaeJ1939_73,
    Iso11992_4,
    SaeJ2012Da04,
}

/// World-wide harmonised OBD data of a DTC: its functional group and format.
#[derive(Debug, Clone, Copy, PartialEq, Eq, Structural)]
pub struct WwhObdMeta {
    pub func_gid: u8,
    pub fid: DtcFormat,
}

/// One stored DTC with what the server knows of it.
#[derive(Debug, Clone)]
pub struct DtcRecord {
    /// The 24-bit DTC number.
    pub dtc: u32,
    pub status: u8,
    pub severity: u8,
    pub func_unit: u8,
    pub fault_counter: u8,
    pub permanent: bool,
    /// Extended data records: record number and data.
    pub ext_data: Vec<(u8, Vec<u8>)>,
    pub mirror: bool,
    pub emissions_obd: bool,
    pub wwh_obd: Option<WwhObdMeta>,
}

/// The mathematical value of a [`DtcRecord`].
pub struct DtcRecordView {
    pub dtc: u32,
    pub status: u8,
    pub severity: u8,
    pub func_unit: u8,
    pub fault_counter: u8,
    pub permanent: bool,
    pub ext_data: Seq<(u8, Seq<u8>)>,
    pub mirror: bool,
    pub emissions_obd: bool,
    pub wwh_obd: Option<WwhObdMeta>,
}

pub open spec fn ext_entries_view(s: Seq<(u8, Vec<u8>)>) -> Seq<(u8, Seq<u8>)> {
    s.map_values(|e: (u8, Vec<u8>)| (e.0, e.1@))
}

impl View for DtcRecord {
    type V = DtcRecordView;

    open spec fn view(&self) -> DtcRecordView {
        DtcRecordView {
            dtc: self.dtc,
            status: self.status,
            severity: self.severity,
            func_unit: self.func_unit,
            fault_counter: self.fault_counter,
            permanent: self.permanent,
            ext_data: ext_entries_view(self.ext_data@),
            mirror: self.mirror,
            emissions_obd: self.emissions_obd,
            wwh_obd: self.wwh_obd,
        }
    }
}

/// The views of a sequence of records.
pub open spec fn records_view(s: Seq<DtcRecord>) -> Seq<DtcRecordView> {
    s.map_values(|r: DtcRecord| r@)
}

/// A DTC with its status byte.
#[derive(Debug, Clone, Copy, PartialEq, Eq, Structural)]
pub struct StatusRecord {
    pub dtc: u32,
    pub status: u8,
}

/// A DTC with its severity, functional unit and status.
#[derive(Debug, Clone, Copy, PartialEq, Eq, Structural)]
pub struct SeverityRecord1 {
    pub severity: u8,
    pub func_unit: u8,
    pub dtc: u32,
    pub status: u8,
}

/// A DTC with its severity and status (WWH-OBD reports).
#[derive(Debug, Clone, Copy, PartialEq, Eq, Structural)]
pub struct SeverityRecord {
    pub severity: u8,
    pub dtc: u32,
    pub status: u8,
}

/// A DTC with its fault detection counter.
#[derive(Debug, Clone, Copy, PartialEq, Eq, Structural)]
pub struct FaultCounterRecord {
    pub dtc: u32,
    pub counter: u8,
}

/// The sub-functions of service 0x19 with their parameters, over all
/// editions of ISO 14229-1.
#[derive(Debug, Clone, Copy, PartialEq, Eq, Structural)]
pub enum DtcInfoRequest {
    ReportNumberOfDTCByStatusMask(u8),
    ReportDTCByStatusMask(u8),
    ReportDTCSnapshotIdentification,
    ReportDTCSnapshotRecordByDTCNumber { mask_record: u32, record_num: u8 },
    ReportDTCSnapshotRecordByRecordNumber { record_num: u8 },
    ReportDTCStoredDataByRecordNumber { stored_num: u8 },
    ReportDTCExtDataRecordByDTCNumber { mask_record: u32, extra_num: u8 },
    ReportNumberOfDTCBySeverityMaskRecord { severity_mask: u8, status_mask: u8 },
    ReportDTCBySeverityMaskRecord { severity_mask: u8, status_mask: u8 },
    ReportSeverityInformationOfDTC { mask_record: u32 },
    ReportSupportedDTC,
    ReportFirstTestFailedDTC,
    ReportFirstConfirmedDTC,
    ReportMostRecentTestFailedDTC,
    ReportMostRecentConfirmedDTC,
    ReportMirrorMemoryDTCByStatusMask(u8),
    ReportMirrorMemoryDTCExtDataRecordByDTCNumber { mask_record: u32, extra_num: u8 },
    ReportNumberOfMirrorMemoryDTCByStatusMask(u8),
    ReportNumberOfEmissionsOBDDTCByStatusMask(u8),
    ReportEmissionsOBDDTCByStatusMask(u8),
    ReportDTCFaultDetectionCounter,
    ReportDTCWithPermanentStatus,
    ReportDTCExtDataRecordByRecordNumber { extra_num: u8 },
    ReportUserDefMemoryDTCByStatusMask { status_mask: u8, mem_selection: u8 },
    ReportUserDefMemoryDTCSnapshotRecordByDTCNumber {
        mask_record: u32,
        record_num: u8,
        mem_selection: u8,
    },
    ReportUserDefMemoryDTCExtDataRecordByDTCNumber {
        mask_record: u32,
        extra_num: u8,
        mem_selection: u8,
    },
    ReportSupportedDTCExtDataRecord { extra_num: u8 },
    ReportWWHOBDDTCByMaskRecord { func_gid: u8, status_mask: u8, severity_mask: u8 },
    ReportWWHOBDDTCWithPermanentStatus { func_gid: u8 },
    ReportDTCInformationByDTCReadinessGroupIdentifier { func_gid: u8, readiness_gid: u8 },
}

/// The positive reports that the server builds.
#[derive(Debug, Clone)]
#[allow(inconsistent_fields)]
pub enum DtcInfoResponse {
    ReportNumberOfDTCByStatusMask { avl_mask: u8, fid: DtcFormat, count: u16 },
    ReportDTCByStatusMask { avl_mask: u8, records: Vec<StatusRecord> },
    ReportDTCExtDataRecordByDTCNumber {
        status_record: StatusRecord,
        records: Vec<(u8, Vec<u8>)>,
    },
    ReportMirrorMemoryDTCExtDataRecordByDTCNumber {
        status_record: StatusRecord,
        records: Vec<(u8, Vec<u8>)>,
    },
    ReportNumberOfDTCBySeverityMaskRecord { avl_mask: u8, fid: DtcFormat, count: u16 },
    ReportDTCBySeverityMaskRecord {
        avl_mask: u8,
        record: SeverityRecord1,
        others: Vec<SeverityRecord1>,
    },
    ReportSeverityInformationOfDTC { avl_mask: u8, records: Vec<SeverityRecord1> },
    ReportSupportedDTC { avl_mask: u8, records: Vec<StatusRecord> },
    ReportFirstTestFailedDTC { avl_mask: u8, record: Option<StatusRecord> },
    ReportFirstConfirmedDTC { avl_mask: u8, record: Option<StatusRecord> },
    ReportMostRecentTestFailedDTC { avl_mask: u8, record: Option<StatusRecord> },
    ReportMostRecentConfirmedDTC { avl_mask: u8, record: Option<StatusRecord> },
    ReportMirrorMemoryDTCByStatusMask { avl_mask: u8, records: Vec<StatusRecord> },
    ReportNumberOfMirrorMemoryDTCByStatusMask { avl_mask: u8, fid: DtcFormat, count: u16 },
    ReportNumberOfEmissionsOBDDTCByStatusMask { avl_mask: u8, fid: DtcFormat, count: u16 },
    ReportEmissionsOBDDTCByStatusMask { avl_mask: u8, records: Vec<StatusRecord> },
    ReportDTCFaultDetectionCounter { records: Vec<FaultCounterRecord> },
    ReportDTCWithPermanentStatus { avl_mask: u8, records: Vec<StatusRecord> },
    ReportDTCExtDataRecordByRecordNumber { number: u8, records: Vec<(StatusRecord, Vec<u8>)> },
    ReportSupportedDTCExtDataRecord {
        avl_mask: u8,
        number: Option<u8>,
        records: Vec<StatusRecord>,
    },
    ReportWWHOBDDTCByMaskRecord {
        func_gid: u8,
        status_avl_mask: u8,
        severity_avl_mask: u8,
        fid: DtcFormat,
        records: Vec<SeverityRecord>,
    },
    ReportWWHOBDDTCWithPermanentStatus {
        func_gid: u8,
        status_avl_mask: u8,
        fid: DtcFormat,
        records: Vec<StatusRecord>,
    },
}

/// The mathematical value of a [`DtcInfoResponse`].
#[allow(inconsistent_fields)]
pub enum DtcReport {
    NumberOfDTCByStatusMask { avl_mask: u8, fid: DtcFormat, count: u16 },
    DTCByStatusMask { avl_mask: u8, records: Seq<StatusRecord> },
    DTCExtDataRecordByDTCNumber { status_record: StatusRecord, records: Seq<(u8, Seq<u8>)> },
    MirrorMemoryDTCExtDataRecordByDTCNumber {
        status_record: StatusRecord,
        records: Seq<(u8, Seq<u8>)>,
    },
    NumberOfDTCBySeverityMaskRecord { avl_mask: u8, fid: DtcFormat, count: u16 },
    DTCBySeverityMaskRecord {
        avl_mask: u8,
        record: SeverityRecord1,
        others: Seq<SeverityRecord1>,
    },
    SeverityInformationOfDTC { avl_mask: u8, records: Seq<SeverityRecord1> },
    SupportedDTC { avl_mask: u8, records: Seq<StatusRecord> },
    FirstTestFailedDTC { avl_mask: u8, record: Option<StatusRecord> },
    FirstConfirmedDTC { avl_mask: u8, record: Option<StatusRecord> },
    MostRecentTestFailedDTC { avl_mask: u8, record: Option<StatusRecord> },
    MostRecentConfirmedDTC { avl_mask: u8, record: Option<StatusRecord> },
    MirrorMemoryDTCByStatusMask { avl_mask: u8, records: Seq<StatusRecord> },
    NumberOfMirrorMemoryDTCByStatusMask { avl_mask: u8, fid: DtcFormat, count: u16 },
    NumberOfEmissionsOBDDTCByStatusMask { avl_mask: u8, fid: DtcFormat, count: u16 },
    EmissionsOBDDTCByStatusMask { avl_mask: u8, records: Seq<StatusRecord> },
    DTCFaultDetectionCounter { records: Seq<FaultCounterRecord> },
    DTCWithPermanentStatus { avl_mask: u8, records: Seq<StatusRecord> },
    DTCExtDataRecordByRecordNumber { number: u8, records: Seq<(StatusRecord, Seq<u8>)> },
    SupportedDTCExtDataRecord { avl_mask: u8, number: Option<u8>, records: Seq<StatusRecord> },
    WWHOBDDTCByMaskRecord {
        func_gid: u8,
        status_avl_mask: u8,
        severity_avl_mask: u8,
        fid: DtcFormat,
        records: Seq<SeverityRecord>,
    },
    WWHOBDDTCWithPermanentStatus {
        func_gid: u8,
        status_avl_mask: u8,
        fid: DtcFormat,
        records: Seq<StatusRecord>,
    },
}

impl View for DtcInfoResponse {
    type V = DtcReport;

    open spec fn view(&self) -> DtcReport {
        match *self {
            DtcInfoResponse::ReportNumberOfDTCByStatusMask { avl_mask, fid, count } => {
                DtcReport::NumberOfDTCByStatusMask { avl_mask, fid, count }
            },
            DtcInfoResponse::ReportDTCByStatusMask { avl_mask, records } => {
                DtcReport::DTCByStatusMask { avl_mask, records: records@ }
            },
            DtcInfoResponse::ReportDTCExtDataRecordByDTCNumber { status_record, records } => {
                DtcReport::DTCExtDataRecordByDTCNumber {
                    status_record,
                    records: ext_entries_view(records@),
                }
            },
            DtcInfoResponse::ReportMirrorMemoryDTCExtDataRecordByDTCNumber {
                status_record,
                records,
            } => DtcReport::MirrorMemoryDTCExtDataRecordByDTCNumber {
                status_record,
                records: ext_entries_view(records@),
            },
            DtcInfoResponse::ReportNumberOfDTCBySeverityMaskRecord { avl_mask, fid, count } => {
                DtcReport::NumberOfDTCBySeverityMaskRecord { avl_mask, fid, count }
            },
            DtcInfoResponse::ReportDTCBySeverityMaskRecord { avl_mask, record, others } => {
                DtcReport::DTCBySeverityMaskRecord { avl_mask, record, others: others@ }
            },
            DtcInfoResponse::ReportSeverityInformationOfDTC { avl_mask, records } => {
                DtcReport::SeverityInformationOfDTC { avl_mask, records: records@ }
            },
            DtcInfoResponse::ReportSupportedDTC { avl_mask, records } => {
                DtcReport::SupportedDTC { avl_mask, records: records@ }
            },
            DtcInfoResponse::ReportFirstTestFailedDTC { avl_mask, record } => {
                DtcReport::FirstTestFailedDTC { avl_mask, record }
            },
            DtcInfoResponse::ReportFirstConfirmedDTC { avl_mask, record } => {
                DtcReport::FirstConfirmedDTC { avl_mask, record }
            },
            DtcInfoResponse::ReportMostRecentTestFailedDTC { avl_mask, record } => {
                DtcReport::MostRecentTestFailedDTC { avl_mask, record }
            },
            DtcInfoResponse::ReportMostRecentConfirmedDTC { avl_mask, record } => {
                DtcReport::MostRecentConfirmedDTC { avl_mask, record }
            },
            DtcInfoResponse::ReportMirrorMemoryDTCByStatusMask { avl_mask, records } => {
                DtcReport::MirrorMemoryDTCByStatusMask { avl_mask, records: records@ }
            },
            DtcInfoResponse::ReportNumberOfMirrorMemoryDTCByStatusMask { avl_mask, fid, count } => {
                DtcReport::NumberOfMirrorMemoryDTCByStatusMask { avl_mask, fid, count }
            },
            DtcInfoResponse::ReportNumberOfEmissionsOBDDTCByStatusMask { avl_mask, fid, count } => {
                DtcReport::NumberOfEmissionsOBDDTCByStatusMask { avl_mask, fid, count }
            },
            DtcInfoResponse::ReportEmissionsOBDDTCByStatusMask { avl_mask, records } => {
                DtcReport::EmissionsOBDDTCByStatusMask { avl_mask, records: records@ }
            },
            DtcInfoResponse::ReportDTCFaultDetectionCounter { records } => {
                DtcReport::DTCFaultDetectionCounter { records: records@ }
            },
            DtcInfoResponse::ReportDTCWithPermanentStatus { avl_mask, records } => {
                DtcReport::DTCWithPermanentStatus { avl_mask, records: records@ }
            },
            DtcInfoResponse::ReportDTCExtDataRecordByRecordNumber { number, records } => {
                DtcReport::DTCExtDataRecordByRecordNumber {
                    number,
                    records: records@.map_values(|e: (StatusRecord, Vec<u8>)| (e.0, e.1@)),
                }
            },
            DtcInfoResponse::ReportSupportedDTCExtDataRecord { avl_mask, number, records } => {
                DtcReport::SupportedDTCExtDataRecord { avl_mask, number, records: records@ }
            },
            DtcInfoResponse::ReportWWHOBDDTCByMaskRecord {
                func_gid,
                status_avl_mask,
                severity_avl_mask,
                fid,
                records,
            } => DtcReport::WWHOBDDTCByMaskRecord {
                func_gid,
                status_avl_mask,
                severity_avl_mask,
                fid,
                records: records@,
            },
            DtcInfoResponse::ReportWWHOBDDTCWithPermanentStatus {
                func_gid,
                status_avl_mask,
                fid,
                records,
            } => DtcReport::WWHOBDDTCWithPermanentStatus {
                func_gid,
                status_avl_mask,
                fid,
                records: records@,
            },
        }
    }
}

// ---------------------------------------------------------------------------
// The model: filters and folds over the stored records.
// ---------------------------------------------------------------------------

/// The elements of `s` that satisfy `p`, in their order.
pub open spec fn keep<A>(s: Seq<A>, p: spec_fn(A) -> bool) -> Seq<A>
    decreases s.len(),
{
    if s.len() == 0 {
        Seq::empty()
    } else if p(s.last()) {
        keep(s.drop_last(), p).push(s.last())
    } else {
        keep(s.drop_last(), p)
    }
}

/// Bitwise OR of the status bytes of `s`: the availability mask.
pub open spec fn status_or(s: Seq<DtcRecordView>) -> u8
    decreases s.len(),
{
    if s.len() == 0 {
        0
    } else {
        status_or(s.drop_last()) | s.last().status
    }
}

/// Bitwise OR of the severity bytes of `s`.
pub open spec fn severity_or(s: Seq<DtcRecordView>) -> u8
    decreases s.len(),
{
    if s.len() == 0 {
        0
    } else {
        severity_or(s.drop_last()) | s.last().severity
    }
}

pub open spec fn status_of(r: DtcRecordView) -> StatusRecord {
    StatusRecord { dtc: r.dtc, status: r.status }
}

pub open spec fn severity1_of(r: DtcRecordView) -> SeverityRecord1 {
    SeverityRecord1 { severity: r.severity, func_unit: r.func_unit, dtc: r.dtc, status: r.status }
}

pub open spec fn severity_of(r: DtcRecordView) -> SeverityRecord {
    SeverityRecord { severity: r.severity, dtc: r.dtc, status: r.status }
}

pub open spec fn statuses(s: Seq<DtcRecordView>) -> Seq<StatusRecord> {
    s.map_values(|r: DtcRecordView| status_of(r))
}

pub open spec fn severities1(s: Seq<DtcRecordView>) -> Seq<SeverityRecord1> {
    s.map_values(|r: DtcRecordView| severity1_of(r))
}

pub open spec fn severities(s: Seq<DtcRecordView>) -> Seq<SeverityRecord> {
    s.map_values(|r: DtcRecordView| severity_of(r))
}

pub open spec fn status_hit(mask: u8) -> spec_fn(DtcRecordView) -> bool {
    |r: DtcRecordView| r.status & mask != 0
}

pub open spec fn severity_hit(status_mask: u8, severity_mask: u8) -> spec_fn(DtcRecordView) -> bool {
    |r: DtcRecordView| r.status & status_mask != 0 && r.severity & severity_mask != 0
}

pub open spec fn dtc_is(dtc: u32) -> spec_fn(DtcRecordView) -> bool {
    |r: DtcRecordView| r.dtc == dtc
}

pub open spec fn is_mirror() -> spec_fn(DtcRecordView) -> bool {
    |r: DtcRecordView| r.mirror
}

pub open spec fn is_emissions() -> spec_fn(DtcRecordView) -> bool {
    |r: DtcRecordView| r.emissions_obd
}

pub open spec fn is_permanent() -> spec_fn(DtcRecordView) -> bool {
    |r: DtcRecordView| r.permanent
}

pub open spec fn mirror_dtc_is(dtc: u32) -> spec_fn(DtcRecordView) -> bool {
    |r: DtcRecordView| r.mirror && r.dtc == dtc
}

pub open spec fn in_wwh_group(func_gid: u8) -> spec_fn(DtcRecordView) -> bool {
    |r: DtcRecordView| r.wwh_obd matches Some(m) && m.func_gid == func_gid
}

pub open spec fn mirror_status_hit(mask: u8) -> spec_fn(DtcRecordView) -> bool {
    |r: DtcRecordView| r.mirror && r.status & mask != 0
}

pub open spec fn emissions_status_hit(mask: u8) -> spec_fn(DtcRecordView) -> bool {
    |r: DtcRecordView| r.emissions_obd && r.status & mask != 0
}

pub open spec fn wwh_severity_hit(func_gid: u8, status_mask: u8, severity_mask: u8) -> spec_fn(
    DtcRecordView,
) -> bool {
    |r: DtcRecordView|
        r.wwh_obd matches Some(m) && m.func_gid == func_gid && r.status & status_mask != 0
            && r.severity & severity_mask != 0
}

pub open spec fn wwh_permanent(func_gid: u8) -> spec_fn(DtcRecordView) -> bool {
    |r: DtcRecordView| r.wwh_obd matches Some(m) && m.func_gid == func_gid && r.permanent
}

/// The first record of `s` that satisfies `p`, as a status record.
pub open spec fn first_status(s: Seq<DtcRecordView>, p: spec_fn(DtcRecordView) -> bool) -> Option<
    StatusRecord,
> {
    let k = keep(s, p);
    if k.len() == 0 {
        None
    } else {
        Some(status_of(k[0]))
    }
}

/// The last record of `s` that satisfies `p`, as a status record.
pub open spec fn last_status(s: Seq<DtcRecordView>, p: spec_fn(DtcRecordView) -> bool) -> Option<
    StatusRecord,
> {
    let k = keep(s, p);
    if k.len() == 0 {
        None
    } else {
        Some(status_of(k.last()))
    }
}

// ---------------------------------------------------------------------------
// Executable helpers.
// ---------------------------------------------------------------------------

/// Unfolds `keep` over one more element of a prefix.
proof fn lemma_keep_step<A>(s: Seq<A>, i: int, p: spec_fn(A) -> bool)
    requires
        0 <= i < s.len(),
    ensures
        keep(s.take(i + 1), p) == if p(s[i]) {
            keep(s.take(i), p).push(s[i])
        } else {
            keep(s.take(i), p)
        },
{
    assert(s.take(i + 1).drop_last() =~= s.take(i));
}

/// Unfolds the two folds over one more element of a prefix.
proof fn lemma_or_step(s: Seq<DtcRecordView>, i: int)
    requires
        0 <= i < s.len(),
    ensures
        status_or(s.take(i + 1)) == status_or(s.take(i)) | s[i].status,
        severity_or(s.take(i + 1)) == severity_or(s.take(i)) | s[i].severity,
{
    assert(s.take(i + 1).drop_last() =~= s.take(i));
}

/// `keep` distributes over concatenation.
proof fn lemma_keep_append<A>(a: Seq<A>, b: Seq<A>, p: spec_fn(A) -> bool)
    ensures
        keep(a + b, p) == keep(a, p) + keep(b, p),
    decreases b.len(),
{
    if b.len() == 0 {
        assert(a + b =~= a);
        assert(keep(a, p) + keep(b, p) =~= keep(a, p));
    } else {
        lemma_keep_append(a, b.drop_last(), p);
        assert((a + b).drop_last() =~= a + b.drop_last());
        assert((a + b).last() == b.last());
        if p(b.last()) {
            assert(keep(a, p) + keep(b.drop_last(), p).push(b.last()) =~= (keep(a, p) + keep(
                b.drop_last(),
                p,
            )).push(b.last()));
        }
    }
}

/// Everything that `keep` returns satisfies the predicate.
proof fn lemma_keep_all<A>(s: Seq<A>, p: spec_fn(A) -> bool)
    ensures
        forall|i: int| 0 <= i < keep(s, p).len() ==> p(#[trigger] keep(s, p)[i]),
        keep(s, p).len() <= s.len(),
    decreases s.len(),
{
    if s.len() > 0 {
        lemma_keep_all(s.drop_last(), p);
    }
}

/// OR of the status bytes of all records.
pub fn availability_mask(records: &[DtcRecord]) -> (mask: u8)
    ensures
        mask == status_or(records_view(records@)),
{
    let ghost s = records_view(records@);
    let mut mask: u8 = 0;
    for i in 0..records.len()
        invariant
            s == records_view(records@),
            mask == status_or(s.take(i as int)),
    {
        proof {
            lemma_or_step(s, i as int);
        }
        mask = mask | records[i].status;
    }
    assert(s.take(records.len() as int) =~= s);
    mask
}


/// Which records a report looks at.
#[derive(Clone, Copy)]
enum Selector {
    All,
    Status(u8),
    Severity(u8, u8),
    Dtc(u32),
    MirrorDtc(u32),
    Mirror,
    MirrorStatus(u8),
    Emissions,
    EmissionsStatus(u8),
    Permanent,
    WwhGroup(u8),
    WwhSeverity(u8, u8, u8),
    WwhPermanent(u8),
}

spec fn selects(sel: Selector) -> spec_fn(DtcRecordView) -> bool {
    match sel {
        Selector::All => |r: DtcRecordView| true,
        Selector::Status(m) => status_hit(m),
        Selector::Severity(sm, vm) => severity_hit(sm, vm),
        Selector::Dtc(d) => dtc_is(d),
        Selector::MirrorDtc(d) => mirror_dtc_is(d),
        Selector::Mirror => is_mirror(),
        Selector::MirrorStatus(m) => mirror_status_hit(m),
        Selector::Emissions => is_emissions(),
        Selector::EmissionsStatus(m) => emissions_status_hit(m),
        Selector::Permanent => is_permanent(),
        Selector::WwhGroup(g) => in_wwh_group(g),
        Selector::WwhSeverity(g, sm, vm) => wwh_severity_hit(g, sm, vm),
        Selector::WwhPermanent(g) => wwh_permanent(g),
    }
}

fn selected(sel: Selector, r: &DtcRecord) -> (b: bool)
    ensures
        b == selects(sel)(r@),
{
    match sel {
        Selector::All => true,
        Selector::Status(m) => r.status & m != 0,
        Selector::Severity(sm, vm) => r.status & sm != 0 && r.severity & vm != 0,
        Selector::Dtc(d) => r.dtc == d,
        Selector::MirrorDtc(d) => r.mirror && r.dtc == d,
        Selector::Mirror => r.mirror,
        Selector::MirrorStatus(m) => r.mirror && r.status & m != 0,
        Selector::Emissions => r.emissions_obd,
        Selector::EmissionsStatus(m) => r.emissions_obd && r.status & m != 0,
        Selector::Permanent => r.permanent,
        Selector::WwhGroup(g) => match r.wwh_obd {
            Some(m) => m.func_gid == g,
            None => false,
        },
        Selector::WwhSeverity(g, sm, vm) => match r.wwh_obd {
            Some(m) => m.func_gid == g && r.status & sm != 0 && r.severity & vm != 0,
            None => false,
        },
        Selector::WwhPermanent(g) => match r.wwh_obd {
            Some(m) => m.func_gid == g && r.permanent,
            None => false,
        },
    }
}

/// The selected records as status records.
fn select_statuses(records: &[DtcRecord], sel: Selector) -> (out: Vec<StatusRecord>)
    ensures
        out@ == statuses(keep(records_view(records@), selects(sel))),
{
    let ghost s = records_view(records@);
    let ghost p = selects(sel);
    let mut out: Vec<StatusRecord> = Vec::new();
    for i in 0..records.len()
        invariant
            s == records_view(records@),
            p == selects(sel),
            out@ == statuses(keep(s.take(i as int), p)),
    {
        proof {
            lemma_keep_step(s, i as int, p);
        }
        let r = &records[i];
        if selected(sel, r) {
            out.push(StatusRecord { dtc: r.dtc, status: r.status });
            assert(out@ =~= statuses(keep(s.take(i + 1), p)));
        }
    }
    assert(s.take(records.len() as int) =~= s);
    out
}

/// The selected records as severity records.
fn select_severities1(records: &[DtcRecord], sel: Selector) -> (out: Vec<SeverityRecord1>)
    ensures
        out@ == severities1(keep(records_view(records@), selects(sel))),
{
    let ghost s = records_view(records@);
    let ghost p = selects(sel);
    let mut out: Vec<SeverityRecord1> = Vec::new();
    for i in 0..records.len()
        invariant
            s == records_view(records@),
            p == selects(sel),
            out@ == severities1(keep(s.take(i as int), p)),
    {
        proof {
            lemma_keep_step(s, i as int, p);
        }
        let r = &records[i];
        if selected(sel, r) {
            out.push(
                SeverityRecord1 {
                    severity: r.severity,
                    func_unit: r.func_unit,
                    dtc: r.dtc,
                    status: r.status,
                },
            );
            assert(out@ =~= severities1(keep(s.take(i + 1), p)));
        }
    }
    assert(s.take(records.len() as int) =~= s);
    out
}

/// The selected records as WWH-OBD severity records.
fn select_severities(records: &[DtcRecord], sel: Selector) -> (out: Vec<SeverityRecord>)
    ensures
        out@ == severities(keep(records_view(records@), selects(sel))),
{
    let ghost s = records_view(records@);
    let ghost p = selects(sel);
    let mut out: Vec<SeverityRecord> = Vec::new();
    for i in 0..records.len()
        invariant
            s == records_view(records@),
            p == selects(sel),
            out@ == severities(keep(s.take(i as int), p)),
    {
        proof {
            lemma_keep_step(s, i as int, p);
        }
        let r = &records[i];
        if selected(sel, r) {
            out.push(SeverityRecord { severity: r.severity, dtc: r.dtc, status: r.status });
            assert(out@ =~= severities(keep(s.take(i + 1), p)));
        }
    }
    assert(s.take(records.len() as int) =~= s);
    out
}

/// How many records are selected, with the OR of their status and severity bytes.
fn select_summary(records: &[DtcRecord], sel: Selector) -> (res: (usize, u8, u8))
    ensures
        res.0 == keep(records_view(records@), selects(sel)).len(),
        res.1 == status_or(keep(records_view(records@), selects(sel))),
        res.2 == severity_or(keep(records_view(records@), selects(sel))),
{
    let ghost s = records_view(records@);
    let ghost p = selects(sel);
    let mut count: usize = 0;
    let mut smask: u8 = 0;
    let mut vmask: u8 = 0;
    for i in 0..records.len()
        invariant
            s == records_view(records@),
            p == selects(sel),
            count == keep(s.take(i as int), p).len(),
            smask == status_or(keep(s.take(i as int), p)),
            vmask == severity_or(keep(s.take(i as int), p)),
            count <= i,
            i <= records.len(),
    {
        proof {
            lemma_keep_step(s, i as int, p);
            lemma_keep_all(s.take(i as int), p);
        }
        let r = &records[i];
        if selected(sel, r) {
            count = count + 1;
            smask = smask | r.status;
            vmask = vmask | r.severity;
            proof {
                let k = keep(s.take(i + 1), p);
                assert(k.drop_last() =~= keep(s.take(i as int), p));
            }
        }
    }
    assert(s.take(records.len() as int) =~= s);
    (count, smask, vmask)
}

/// The first and the last selected record, as status records.
fn select_ends(records: &[DtcRecord], sel: Selector) -> (res: (
    Option<StatusRecord>,
    Option<StatusRecord>,
))
    ensures
        res.0 == first_status(records_view(records@), selects(sel)),
        res.1 == last_status(records_view(records@), selects(sel)),
{
    let ghost s = records_view(records@);
    let ghost p = selects(sel);
    let mut first: Option<StatusRecord> = None;
    let mut last: Option<StatusRecord> = None;
    for i in 0..records.len()
        invariant
            s == records_view(records@),
            p == selects(sel),
            first == first_status(s.take(i as int), p),
            last == last_status(s.take(i as int), p),
    {
        proof {
            lemma_keep_step(s, i as int, p);
        }
        let r = &records[i];
        if selected(sel, r) {
            if first.is_none() {
                first = Some(StatusRecord { dtc: r.dtc, status: r.status });
            }
            last = Some(StatusRecord { dtc: r.dtc, status: r.status });
        }
    }
    assert(s.take(records.len() as int) =~= s);
    (first, last)
}


// ---------------------------------------------------------------------------
// Extended data records and WWH-OBD formats.
// ---------------------------------------------------------------------------

/// The extended data records that a request for record `extra_num` covers
/// (0x00 stands for all of them).
pub open spec fn ext_wanted(extra_num: u8) -> spec_fn((u8, Seq<u8>)) -> bool {
    |e: (u8, Seq<u8>)| extra_num == 0 || e.0 == extra_num
}

pub open spec fn ext_number_is(n: u8) -> spec_fn((u8, Seq<u8>)) -> bool {
    |e: (u8, Seq<u8>)| e.0 == n
}

/// The record's number is configured and its data has the configured length.
pub open spec fn ext_len_ok(cfg: Map<u8, usize>, e: (u8, Seq<u8>)) -> bool {
    cfg.contains_key(e.0) && cfg[e.0] == e.1.len()
}

/// Each record in `f` has its configured length.
pub open spec fn all_len_ok(cfg: Map<u8, usize>, f: Seq<(u8, Seq<u8>)>) -> bool {
    forall|i: int| 0 <= i < f.len() ==> ext_len_ok(cfg, #[trigger] f[i])
}

/// The extended data records of `r` that `extra_num` asks for, if each has
/// its configured length.
pub open spec fn ext_records_of(r: DtcRecordView, extra_num: u8, cfg: Map<u8, usize>) -> Result<
    Seq<(u8, Seq<u8>)>,
    Nrc,
> {
    let f = keep(r.ext_data, ext_wanted(extra_num));
    if all_len_ok(cfg, f) {
        Ok(f)
    } else {
        Err(Nrc::RequestOutOfRange)
    }
}

/// The data of record `n` of `r`: none if `r` has no such record, its data if
/// it has exactly one of the configured length; refused if `n` is not
/// configured or the record is duplicated or of another length.
pub open spec fn ext_payload_of(r: DtcRecordView, n: u8, cfg: Map<u8, usize>) -> Result<
    Option<Seq<u8>>,
    Nrc,
> {
    if !cfg.contains_key(n) {
        Err(Nrc::RequestOutOfRange)
    } else {
        let m = keep(r.ext_data, ext_number_is(n));
        if m.len() == 0 {
            Ok(None)
        } else if m.len() == 1 && m[0].1.len() == cfg[n] {
            Ok(Some(m[0].1))
        } else {
            Err(Nrc::RequestOutOfRange)
        }
    }
}

/// For each record of `s` that has record `n`, its status and that data.
pub open spec fn payload_records(s: Seq<DtcRecordView>, n: u8, cfg: Map<u8, usize>) -> Result<
    Seq<(StatusRecord, Seq<u8>)>,
    Nrc,
>
    decreases s.len(),
{
    if s.len() == 0 {
        Ok(Seq::empty())
    } else {
        match payload_records(s.drop_last(), n, cfg) {
            Err(e) => Err(e),
            Ok(acc) => match ext_payload_of(s.last(), n, cfg) {
                Err(e) => Err(e),
                Ok(None) => Ok(acc),
                Ok(Some(d)) => Ok(acc.push((status_of(s.last()), d))),
            },
        }
    }
}

pub open spec fn fid_of(r: DtcRecordView) -> DtcFormat {
    match r.wwh_obd {
        Some(m) => m.fid,
        None => DtcFormat::Iso14229_1,
    }
}

pub open spec fn all_fid(d: Seq<DtcRecordView>, f: DtcFormat) -> bool {
    forall|k: int| 0 <= k < d.len() ==> fid_of(#[trigger] d[k]) == f
}

/// The one format of a WWH-OBD functional group: refused when the group is
/// empty, mixes formats, or uses a format other than SAE J1939-73 and
/// SAE J2012-DA (format 04).
pub open spec fn wwh_fid_of(d: Seq<DtcRecordView>) -> Result<DtcFormat, Nrc> {
    if d.len() == 0 {
        Err(Nrc::RequestOutOfRange)
    } else {
        let f = fid_of(d[0]);
        if (f == DtcFormat::SaeJ1939_73 || f == DtcFormat::SaeJ2012Da04) && all_fid(d, f) {
            Ok(f)
        } else {
            Err(Nrc::RequestOutOfRange)
        }
    }
}

pub open spec fn ext_result_view(r: Result<Vec<(u8, Vec<u8>)>, Nrc>) -> Result<
    Seq<(u8, Seq<u8>)>,
    Nrc,
> {
    match r {
        Ok(v) => Ok(ext_entries_view(v@)),
        Err(e) => Err(e),
    }
}

/// Clones a byte vector.
fn copy_bytes(v: &Vec<u8>) -> (c: Vec<u8>)
    ensures
        c@ == v@,
{
    let c = v.clone();
    assert(c@ =~= v@);
    c
}

/// The extended data records of `record` that `extra_num` asks for.
fn validated_ext_data_records(record: &DtcRecord, extra_num: u8, cfg: &HashMap<u8, usize>) -> (res:
    Result<Vec<(u8, Vec<u8>)>, Nrc>)
    ensures
        ext_result_view(res) == ext_records_of(record@, extra_num, cfg@),
{
    broadcast use vstd::std_specs::hash::group_hash_axioms;

    let ghost v = record@.ext_data;
    let ghost p = ext_wanted(extra_num);
    let mut out: Vec<(u8, Vec<u8>)> = Vec::new();
    for j in 0..record.ext_data.len()
        invariant
            v == record@.ext_data,
            v.len() == record.ext_data.len(),
            p == ext_wanted(extra_num),
            ext_entries_view(out@) == keep(v.take(j as int), p),
            all_len_ok(cfg@, keep(v.take(j as int), p)),
    {
        proof {
            lemma_keep_step(v, j as int, p);
        }
        let e = &record.ext_data[j];
        assert(v[j as int] == (e.0, e.1@));
        if extra_num == 0 || e.0 == extra_num {
            let ok = match cfg.get(&e.0) {
                Some(len) => *len == e.1.len(),
                None => false,
            };
            if !ok {
                proof {
                    let k = keep(v.take(j + 1), p);
                    assert(v.take(j + 1) + v.skip(j + 1) =~= v);
                    lemma_keep_append(v.take(j + 1), v.skip(j + 1), p);
                    assert(keep(v, p)[k.len() - 1] == v[j as int]);
                }
                return Err(Nrc::RequestOutOfRange);
            }
            out.push((e.0, copy_bytes(&e.1)));
            assert(ext_entries_view(out@) =~= keep(v.take(j + 1), p));
            proof {
                let k0 = keep(v.take(j as int), p);
                let k = keep(v.take(j + 1), p);
                assert(ext_len_ok(cfg@, v[j as int]));
                assert(all_len_ok(cfg@, k0));
                assert forall|i: int| 0 <= i < k.len() implies ext_len_ok(cfg@, #[trigger] k[i]) by {
                    assert(k == k0.push(v[j as int]));
                    if i < k0.len() {
                        assert(k[i] == k0[i]);
                        assert(ext_len_ok(cfg@, k0[i]));
                    } else {
                        assert(i == k0.len());
                        assert(k[i] == v[j as int]);
                        assert(ext_len_ok(cfg@, v[j as int]));
                    }
                }
            }
        }
    }
    assert(v.take(record.ext_data.len() as int) =~= v);
    Ok(out)
}

/// The data of record `extra_num` of `record`, as `ext_payload_of` says.
fn validated_ext_data_payload(record: &DtcRecord, extra_num: u8, cfg: &HashMap<u8, usize>) -> (res:
    Result<Option<Vec<u8>>, Nrc>)
    ensures
        match res {
            Ok(Some(d)) => ext_payload_of(record@, extra_num, cfg@) == Ok::<Option<Seq<u8>>, Nrc>(
                Some(d@),
            ),
            Ok(None) => ext_payload_of(record@, extra_num, cfg@) == Ok::<Option<Seq<u8>>, Nrc>(
                None,
            ),
            Err(e) => ext_payload_of(record@, extra_num, cfg@) == Err::<Option<Seq<u8>>, Nrc>(e),
        },
{
    broadcast use vstd::std_specs::hash::group_hash_axioms;

    let expected = match cfg.get(&extra_num) {
        Some(len) => *len,
        None => return Err(Nrc::RequestOutOfRange),
    };
    let ghost v = record@.ext_data;
    let ghost p = ext_number_is(extra_num);
    let mut count: usize = 0;
    let mut first: usize = 0;
    for j in 0..record.ext_data.len()
        invariant
            v == record@.ext_data,
            v.len() == record.ext_data.len(),
            p == ext_number_is(extra_num),
            count == keep(v.take(j as int), p).len(),
            count <= j,
            count > 0 ==> first < record.ext_data.len() && keep(v.take(j as int), p)[0] == v[first as int],
    {
        proof {
            lemma_keep_step(v, j as int, p);
        }
        if record.ext_data[j].0 == extra_num {
            if count == 0 {
                first = j;
            }
            count = count + 1;
        }
    }
    assert(v.take(record.ext_data.len() as int) =~= v);
    if count == 0 {
        Ok(None)
    } else if count == 1 && record.ext_data[first].1.len() == expected {
        Ok(Some(copy_bytes(&record.ext_data[first].1)))
    } else {
        Err(Nrc::RequestOutOfRange)
    }
}

/// Once `payload_records` refuses a prefix it refuses every longer one.
proof fn lemma_payload_err_extends(s: Seq<DtcRecordView>, j: int, n: u8, cfg: Map<u8, usize>)
    requires
        0 <= j <= s.len(),
        payload_records(s.take(j), n, cfg) is Err,
    ensures
        payload_records(s, n, cfg) is Err,
    decreases s.len() - j,
{
    if j < s.len() {
        assert(s.take(j + 1).drop_last() =~= s.take(j));
        lemma_payload_err_extends(s, j + 1, n, cfg);
    } else {
        assert(s.take(j) =~= s);
    }
}

/// For each record that has record `extra_num`, its status and that data.
fn collect_payloads(records: &[DtcRecord], extra_num: u8, cfg: &HashMap<u8, usize>) -> (res: Result<
    Vec<(StatusRecord, Vec<u8>)>,
    Nrc,
>)
    ensures
        match res {
            Ok(v) => payload_records(records_view(records@), extra_num, cfg@) == Ok::<
                Seq<(StatusRecord, Seq<u8>)>,
                Nrc,
            >(v@.map_values(|e: (StatusRecord, Vec<u8>)| (e.0, e.1@))),
            Err(e) => payload_records(records_view(records@), extra_num, cfg@) == Err::<
                Seq<(StatusRecord, Seq<u8>)>,
                Nrc,
            >(e),
        },
{
    let ghost s = records_view(records@);
    let mut out: Vec<(StatusRecord, Vec<u8>)> = Vec::new();
    assert(s.take(0) =~= Seq::<DtcRecordView>::empty());
    assert(out@.map_values(|e: (StatusRecord, Vec<u8>)| (e.0, e.1@)) =~= Seq::<
        (StatusRecord, Seq<u8>),
    >::empty());
    for i in 0..records.len()
        invariant
            s == records_view(records@),
            payload_records(s.take(i as int), extra_num, cfg@) == Ok::<
                Seq<(StatusRecord, Seq<u8>)>,
                Nrc,
            >(out@.map_values(|e: (StatusRecord, Vec<u8>)| (e.0, e.1@))),
    {
        let r = &records[i];
        assert(s.take(i + 1).drop_last() =~= s.take(i as int));
        assert(s.take(i + 1).last() == r@);
        match validated_ext_data_payload(r, extra_num, cfg) {
            Err(e) => {
                proof {
                    lemma_payload_err_extends(s, i + 1, extra_num, cfg@);
                    assert(s.take(records.len() as int) =~= s);
                    lemma_payload_all_errors_same(s, extra_num, cfg@);
                    lemma_payload_error_code(r@, extra_num, cfg@);
                }
                return Err(e);
            },
            Ok(None) => {},
            Ok(Some(d)) => {
                out.push((StatusRecord { dtc: r.dtc, status: r.status }, d));
                assert(out@.map_values(|e: (StatusRecord, Vec<u8>)| (e.0, e.1@)) =~= payload_records(
                    s.take(i as int),
                    extra_num,
                    cfg@,
                )->Ok_0.push((status_of(r@), d@)));
            },
        }
    }
    assert(s.take(records.len() as int) =~= s);
    Ok(out)
}

/// `ext_payload_of` refuses with one code only.
proof fn lemma_payload_error_code(r: DtcRecordView, n: u8, cfg: Map<u8, usize>)
    ensures
        ext_payload_of(r, n, cfg) is Err ==> ext_payload_of(r, n, cfg) == Err::<
            Option<Seq<u8>>,
            Nrc,
        >(Nrc::RequestOutOfRange),
{
}

/// `payload_records` refuses with one code only.
proof fn lemma_payload_all_errors_same(s: Seq<DtcRecordView>, n: u8, cfg: Map<u8, usize>)
    ensures
        payload_records(s, n, cfg) is Err ==> payload_records(s, n, cfg) == Err::<
            Seq<(StatusRecord, Seq<u8>)>,
            Nrc,
        >(Nrc::RequestOutOfRange),
    decreases s.len(),
{
    if s.len() > 0 {
        lemma_payload_all_errors_same(s.drop_last(), n, cfg);
    }
}

/// The one format of the records of WWH-OBD functional group `func_gid`.
fn validated_wwh_fid(records: &[DtcRecord], func_gid: u8) -> (res: Result<DtcFormat, Nrc>)
    ensures
        res == wwh_fid_of(keep(records_view(records@), in_wwh_group(func_gid))),
{
    let ghost s = records_view(records@);
    let ghost p = in_wwh_group(func_gid);
    let mut first: Option<DtcFormat> = None;
    let mut mixed = false;
    for i in 0..records.len()
        invariant
            s == records_view(records@),
            p == in_wwh_group(func_gid),
            first == (if keep(s.take(i as int), p).len() == 0 {
                None::<DtcFormat>
            } else {
                Some(fid_of(keep(s.take(i as int), p)[0]))
            }),
            first matches Some(f) ==> (mixed == !all_fid(keep(s.take(i as int), p), f)),
            first is None ==> !mixed,
    {
        proof {
            lemma_keep_step(s, i as int, p);
        }
        let r = &records[i];
        match r.wwh_obd {
            Some(m) => {
                if m.func_gid == func_gid {
                    match first {
                        None => {
                            first = Some(m.fid);
                        },
                        Some(f) => {
                            if m.fid != f {
                                mixed = true;
                            }
                        },
                    }
                    proof {
                        let k = keep(s.take(i + 1), p);
                        let f = first->Some_0;
                        assert(k == keep(s.take(i as int), p).push(r@));
                        if !all_fid(keep(s.take(i as int), p), f) {
                            let w = choose|w: int|
                                0 <= w < keep(s.take(i as int), p).len() && fid_of(
                                    keep(s.take(i as int), p)[w],
                                ) != f;
                            assert(k[w] == keep(s.take(i as int), p)[w]);
                        }
                        if fid_of(r@) != f {
                            assert(k[k.len() - 1] == r@);
                        }
                    }
                }
            },
            None => {},
        }
    }
    assert(s.take(records.len() as int) =~= s);
    match first {
        None => Err(Nrc::RequestOutOfRange),
        Some(f) => {
            let supported = match f {
                DtcFormat::SaeJ1939_73 => true,
                DtcFormat::SaeJ2012Da04 => true,
                _ => false,
            };
            if !supported || mixed {
                Err(Nrc::RequestOutOfRange)
            } else {
                Ok(f)
            }
        },
    }
}


// ---------------------------------------------------------------------------
// The reports.
// ---------------------------------------------------------------------------

pub open spec fn fault_counter_of(r: DtcRecordView) -> FaultCounterRecord {
    FaultCounterRecord { dtc: r.dtc, counter: r.fault_counter }
}

pub open spec fn with_ext_records(
    status_record: StatusRecord,
    recs: Result<Seq<(u8, Seq<u8>)>, Nrc>,
    mirror: bool,
) -> Result<DtcReport, Nrc> {
    match recs {
        Err(e) => Err(e),
        Ok(records) => if mirror {
            Ok(DtcReport::MirrorMemoryDTCExtDataRecordByDTCNumber { status_record, records })
        } else {
            Ok(DtcReport::DTCExtDataRecordByDTCNumber { status_record, records })
        },
    }
}

/// What the server answers to a request of service 0x19 over the stored
/// records `s`, with extended data record lengths `cfg`.
pub open spec fn dtc_report(req: DtcInfoRequest, s: Seq<DtcRecordView>, cfg: Map<u8, usize>) -> Result<
    DtcReport,
    Nrc,
> {
    let avl_mask = status_or(s);
    let iso = DtcFormat::Iso14229_1;
    let out_of_range = Err(Nrc::RequestOutOfRange);
    match req {
        DtcInfoRequest::ReportNumberOfDTCByStatusMask(mask) => Ok(
            DtcReport::NumberOfDTCByStatusMask {
                avl_mask,
                fid: iso,
                count: keep(s, status_hit(mask)).len() as u16,
            },
        ),
        DtcInfoRequest::ReportDTCByStatusMask(mask) => Ok(
            DtcReport::DTCByStatusMask { avl_mask, records: statuses(keep(s, status_hit(mask))) },
        ),
        DtcInfoRequest::ReportDTCExtDataRecordByDTCNumber { mask_record, extra_num } => {
            let k = keep(s, dtc_is(mask_record));
            if k.len() == 0 {
                out_of_range
            } else {
                with_ext_records(status_of(k[0]), ext_records_of(k[0], extra_num, cfg), false)
            }
        },
        DtcInfoRequest::ReportNumberOfDTCBySeverityMaskRecord { severity_mask, status_mask } => Ok(
            DtcReport::NumberOfDTCBySeverityMaskRecord {
                avl_mask,
                fid: iso,
                count: keep(s, severity_hit(status_mask, severity_mask)).len() as u16,
            },
        ),
        DtcInfoRequest::ReportDTCBySeverityMaskRecord { severity_mask, status_mask } => {
            let k = keep(s, severity_hit(status_mask, severity_mask));
            if k.len() == 0 {
                out_of_range
            } else {
                Ok(
                    DtcReport::DTCBySeverityMaskRecord {
                        avl_mask,
                        record: severity1_of(k[0]),
                        others: severities1(k.drop_first()),
                    },
                )
            }
        },
        DtcInfoRequest::ReportSeverityInformationOfDTC { mask_record } => Ok(
            DtcReport::SeverityInformationOfDTC {
                avl_mask,
                records: severities1(keep(s, dtc_is(mask_record))),
            },
        ),
        DtcInfoRequest::ReportSupportedDTC => if s.len() == 0 {
            out_of_range
        } else {
            Ok(DtcReport::SupportedDTC { avl_mask, records: statuses(s) })
        },
        DtcInfoRequest::ReportFirstTestFailedDTC => match first_status(s, status_hit(0x01)) {
            Some(r) => Ok(DtcReport::FirstTestFailedDTC { avl_mask, record: Some(r) }),
            None => out_of_range,
        },
        DtcInfoRequest::ReportFirstConfirmedDTC => match first_status(s, status_hit(0x08)) {
            Some(r) => Ok(DtcReport::FirstConfirmedDTC { avl_mask, record: Some(r) }),
            None => out_of_range,
        },
        DtcInfoRequest::ReportMostRecentTestFailedDTC => match last_status(s, status_hit(0x01)) {
            Some(r) => Ok(DtcReport::MostRecentTestFailedDTC { avl_mask, record: Some(r) }),
            None => out_of_range,
        },
        DtcInfoRequest::ReportMostRecentConfirmedDTC => match last_status(s, status_hit(0x08)) {
            Some(r) => Ok(DtcReport::MostRecentConfirmedDTC { avl_mask, record: Some(r) }),
            None => out_of_range,
        },
        DtcInfoRequest::ReportMirrorMemoryDTCByStatusMask(mask) => Ok(
            DtcReport::MirrorMemoryDTCByStatusMask {
                avl_mask: status_or(keep(s, is_mirror())),
                records: statuses(keep(s, mirror_status_hit(mask))),
            },
        ),
        DtcInfoRequest::ReportMirrorMemoryDTCExtDataRecordByDTCNumber { mask_record, extra_num } => {
            let k = keep(s, mirror_dtc_is(mask_record));
            if k.len() != 1 {
                out_of_range
            } else {
                with_ext_records(status_of(k[0]), ext_records_of(k[0], extra_num, cfg), true)
            }
        },
        DtcInfoRequest::ReportNumberOfMirrorMemoryDTCByStatusMask(mask) => Ok(
            DtcReport::NumberOfMirrorMemoryDTCByStatusMask {
                avl_mask: status_or(keep(s, is_mirror())),
                fid: iso,
                count: keep(s, mirror_status_hit(mask)).len() as u16,
            },
        ),
        DtcInfoRequest::ReportNumberOfEmissionsOBDDTCByStatusMask(mask) => Ok(
            DtcReport::NumberOfEmissionsOBDDTCByStatusMask {
                avl_mask: status_or(keep(s, is_emissions())),
                fid: iso,
                count: keep(s, emissions_status_hit(mask)).len() as u16,
            },
        ),
        DtcInfoRequest::ReportEmissionsOBDDTCByStatusMask(mask) => Ok(
            DtcReport::EmissionsOBDDTCByStatusMask {
                avl_mask: status_or(keep(s, is_emissions())),
                records: statuses(keep(s, emissions_status_hit(mask))),
            },
        ),
        DtcInfoRequest::ReportDTCFaultDetectionCounter => if s.len() == 0 {
            out_of_range
        } else {
            Ok(
                DtcReport::DTCFaultDetectionCounter {
                    records: s.map_values(|r: DtcRecordView| fault_counter_of(r)),
                },
            )
        },
        DtcInfoRequest::ReportDTCWithPermanentStatus => {
            let k = keep(s, is_permanent());
            if k.len() == 0 {
                out_of_range
            } else {
                Ok(DtcReport::DTCWithPermanentStatus { avl_mask, records: statuses(k) })
            }
        },
        DtcInfoRequest::ReportDTCExtDataRecordByRecordNumber { extra_num } => if extra_num == 0 {
            out_of_range
        } else {
            match payload_records(s, extra_num, cfg) {
                Err(e) => Err(e),
                Ok(records) => Ok(
                    DtcReport::DTCExtDataRecordByRecordNumber { number: extra_num, records },
                ),
            }
        },
        DtcInfoRequest::ReportSupportedDTCExtDataRecord { extra_num } => if !cfg.contains_key(
            extra_num,
        ) {
            Ok(DtcReport::SupportedDTCExtDataRecord { avl_mask, number: None, records: Seq::empty() })
        } else {
            match payload_records(s, extra_num, cfg) {
                Err(e) => Err(e),
                Ok(p) => {
                    let records = p.map_values(|e: (StatusRecord, Seq<u8>)| e.0);
                    Ok(
                        DtcReport::SupportedDTCExtDataRecord {
                            avl_mask,
                            number: if records.len() > 0 {
                                Some(extra_num)
                            } else {
                                None
                            },
                            records,
                        },
                    )
                },
            }
        },
        DtcInfoRequest::ReportWWHOBDDTCByMaskRecord { func_gid, status_mask, severity_mask } => {
            let d = keep(s, in_wwh_group(func_gid));
            if func_gid == 0xFF {
                out_of_range
            } else {
                match wwh_fid_of(d) {
                    Err(e) => Err(e),
                    Ok(fid) => Ok(
                        DtcReport::WWHOBDDTCByMaskRecord {
                            func_gid,
                            status_avl_mask: status_or(d),
                            severity_avl_mask: severity_or(d),
                            fid,
                            records: severities(
                                keep(s, wwh_severity_hit(func_gid, status_mask, severity_mask)),
                            ),
                        },
                    ),
                }
            }
        },
        DtcInfoRequest::ReportWWHOBDDTCWithPermanentStatus { func_gid } => {
            let d = keep(s, in_wwh_group(func_gid));
            if func_gid == 0xFF {
                out_of_range
            } else {
                match wwh_fid_of(d) {
                    Err(e) => Err(e),
                    Ok(fid) => Ok(
                        DtcReport::WWHOBDDTCWithPermanentStatus {
                            func_gid,
                            status_avl_mask: status_or(d),
                            fid,
                            records: statuses(keep(s, wwh_permanent(func_gid))),
                        },
                    ),
                }
            }
        },
        _ => Err(Nrc::SubFunctionNotSupported),
    }
}

pub open spec fn report_view(r: Result<DtcInfoResponse, Nrc>) -> Result<DtcReport, Nrc> {
    match r {
        Ok(v) => Ok(v@),
        Err(e) => Err(e),
    }
}

/// The index of the first selected record.
fn find_first(records: &[DtcRecord], sel: Selector) -> (res: Option<usize>)
    ensures
        match res {
            Some(i) => i < records.len() && keep(records_view(records@), selects(sel)).len() > 0
                && keep(records_view(records@), selects(sel))[0] == records@[i as int]@,
            None => keep(records_view(records@), selects(sel)).len() == 0,
        },
{
    let ghost s = records_view(records@);
    let ghost p = selects(sel);
    for i in 0..records.len()
        invariant
            s == records_view(records@),
            p == selects(sel),
            keep(s.take(i as int), p).len() == 0,
    {
        proof {
            lemma_keep_step(s, i as int, p);
        }
        if selected(sel, &records[i]) {
            proof {
                assert(s.take(i + 1) + s.skip(i + 1) =~= s);
                lemma_keep_append(s.take(i + 1), s.skip(i + 1), p);
                assert(keep(s.take(i + 1), p) =~= seq![s[i as int]]);
            }
            return Some(i);
        }
    }
    assert(s.take(records.len() as int) =~= s);
    None
}

/// The fault detection counters of all records.
fn fault_counters(records: &[DtcRecord]) -> (out: Vec<FaultCounterRecord>)
    ensures
        out@ == records_view(records@).map_values(|r: DtcRecordView| fault_counter_of(r)),
{
    let ghost s = records_view(records@);
    let mut out: Vec<FaultCounterRecord> = Vec::new();
    for i in 0..records.len()
        invariant
            s == records_view(records@),
            out@ == s.take(i as int).map_values(|r: DtcRecordView| fault_counter_of(r)),
    {
        out.push(FaultCounterRecord { dtc: records[i].dtc, counter: records[i].fault_counter });
        assert(out@ =~= s.take(i + 1).map_values(|r: DtcRecordView| fault_counter_of(r)));
    }
    assert(s.take(records.len() as int) =~= s);
    out
}

/// The status records of the records that carry extended data record
/// `extra_num`, as `payload_records` lists them.
fn payload_statuses(p: &Vec<(StatusRecord, Vec<u8>)>) -> (out: Vec<StatusRecord>)
    ensures
        out@ == p@.map_values(|e: (StatusRecord, Vec<u8>)| (e.0, e.1@)).map_values(
            |e: (StatusRecord, Seq<u8>)| e.0,
        ),
{
    let mut out: Vec<StatusRecord> = Vec::new();
    for i in 0..p.len()
        invariant
            out@ == p@.take(i as int).map_values(|e: (StatusRecord, Vec<u8>)| (e.0, e.1@)).map_values(
                |e: (StatusRecord, Seq<u8>)| e.0,
            ),
    {
        out.push(p[i].0);
        assert(out@ =~= p@.take(i + 1).map_values(|e: (StatusRecord, Vec<u8>)| (e.0, e.1@)).map_values(
            |e: (StatusRecord, Seq<u8>)| e.0,
        ));
    }
    assert(p@.take(p.len() as int) =~= p@);
    out
}

/// The answer to a request of service 0x19 over the stored `records`.
pub fn build_read_dtc_response(
    req: DtcInfoRequest,
    records: &[DtcRecord],
    cfg: &Configuration,
) -> (res: Result<DtcInfoResponse, Nrc>)
    ensures
        report_view(res) == dtc_report(req, records_view(records@), cfg.dtc@),
{
    broadcast use vstd::std_specs::hash::group_hash_axioms;

    let ghost s = records_view(records@);
    let avl_mask = availability_mask(records);
    let iso = DtcFormat::Iso14229_1;
    match req {
        DtcInfoRequest::ReportNumberOfDTCByStatusMask(mask) => {
            let (count, _, _) = select_summary(records, Selector::Status(mask));
            Ok(
                DtcInfoResponse::ReportNumberOfDTCByStatusMask {
                    avl_mask,
                    fid: iso,
                    count: count as u16,
                },
            )
        },
        DtcInfoRequest::ReportDTCByStatusMask(mask) => {
            let records = select_statuses(records, Selector::Status(mask));
            Ok(DtcInfoResponse::ReportDTCByStatusMask { avl_mask, records })
        },
        DtcInfoRequest::ReportDTCExtDataRecordByDTCNumber { mask_record, extra_num } => {
            match find_first(records, Selector::Dtc(mask_record)) {
                None => Err(Nrc::RequestOutOfRange),
                Some(i) => {
                    let record = &records[i];
                    let ext = validated_ext_data_records(record, extra_num, &cfg.dtc);
                    match ext {
                        Err(e) => Err(e),
                        Ok(ext_records) => Ok(
                            DtcInfoResponse::ReportDTCExtDataRecordByDTCNumber {
                                status_record: StatusRecord {
                                    dtc: record.dtc,
                                    status: record.status,
                                },
                                records: ext_records,
                            },
                        ),
                    }
                },
            }
        },
        DtcInfoRequest::ReportNumberOfDTCBySeverityMaskRecord { severity_mask, status_mask } => {
            let (count, _, _) = select_summary(
                records,
                Selector::Severity(status_mask, severity_mask),
            );
            Ok(
                DtcInfoResponse::ReportNumberOfDTCBySeverityMaskRecord {
                    avl_mask,
                    fid: iso,
                    count: count as u16,
                },
            )
        },
        DtcInfoRequest::ReportDTCBySeverityMaskRecord { severity_mask, status_mask } => {
            let mut others = select_severities1(
                records,
                Selector::Severity(status_mask, severity_mask),
            );
            if others.len() == 0 {
                Err(Nrc::RequestOutOfRange)
            } else {
                let ghost k = keep(s, severity_hit(status_mask, severity_mask));
                let record = others.remove(0);
                assert(others@ =~= severities1(k.drop_first()));
                Ok(DtcInfoResponse::ReportDTCBySeverityMaskRecord { avl_mask, record, others })
            }
        },
        DtcInfoRequest::ReportSeverityInformationOfDTC { mask_record } => {
            let records = select_severities1(records, Selector::Dtc(mask_record));
            Ok(DtcInfoResponse::ReportSeverityInformationOfDTC { avl_mask, records })
        },
        DtcInfoRequest::ReportSupportedDTC => {
            if records.len() == 0 {
                Err(Nrc::RequestOutOfRange)
            } else {
                let all = select_statuses(records, Selector::All);
                proof {
                    lemma_keep_true(s);
                }
                Ok(DtcInfoResponse::ReportSupportedDTC { avl_mask, records: all })
            }
        },
        DtcInfoRequest::ReportFirstTestFailedDTC => {
            match select_ends(records, Selector::Status(0x01)).0 {
                Some(record) => Ok(
                    DtcInfoResponse::ReportFirstTestFailedDTC { avl_mask, record: Some(record) },
                ),
                None => Err(Nrc::RequestOutOfRange),
            }
        },
        DtcInfoRequest::ReportFirstConfirmedDTC => {
            match select_ends(records, Selector::Status(0x08)).0 {
                Some(record) => Ok(
                    DtcInfoResponse::ReportFirstConfirmedDTC { avl_mask, record: Some(record) },
                ),
                None => Err(Nrc::RequestOutOfRange),
            }
        },
        DtcInfoRequest::ReportMostRecentTestFailedDTC => {
            match select_ends(records, Selector::Status(0x01)).1 {
                Some(record) => Ok(
                    DtcInfoResponse::ReportMostRecentTestFailedDTC {
                        avl_mask,
                        record: Some(record),
                    },
                ),
                None => Err(Nrc::RequestOutOfRange),
            }
        },
        DtcInfoRequest::ReportMostRecentConfirmedDTC => {
            match select_ends(records, Selector::Status(0x08)).1 {
                Some(record) => Ok(
                    DtcInfoResponse::ReportMostRecentConfirmedDTC { avl_mask, record: Some(record) },
                ),
                None => Err(Nrc::RequestOutOfRange),
            }
        },
        DtcInfoRequest::ReportMirrorMemoryDTCByStatusMask(mask) => {
            let (_, mirror_mask, _) = select_summary(records, Selector::Mirror);
            let records = select_statuses(records, Selector::MirrorStatus(mask));
            Ok(DtcInfoResponse::ReportMirrorMemoryDTCByStatusMask { avl_mask: mirror_mask, records })
        },
        DtcInfoRequest::ReportMirrorMemoryDTCExtDataRecordByDTCNumber { mask_record, extra_num } => {
            let (count, _, _) = select_summary(records, Selector::MirrorDtc(mask_record));
            if count != 1 {
                Err(Nrc::RequestOutOfRange)
            } else {
                match find_first(records, Selector::MirrorDtc(mask_record)) {
                    None => Err(Nrc::RequestOutOfRange),
                    Some(i) => {
                        let record = &records[i];
                        match validated_ext_data_records(record, extra_num, &cfg.dtc) {
                            Err(e) => Err(e),
                            Ok(ext_records) => Ok(
                                DtcInfoResponse::ReportMirrorMemoryDTCExtDataRecordByDTCNumber {
                                    status_record: StatusRecord {
                                        dtc: record.dtc,
                                        status: record.status,
                                    },
                                    records: ext_records,
                                },
                            ),
                        }
                    },
                }
            }
        },
        DtcInfoRequest::ReportNumberOfMirrorMemoryDTCByStatusMask(mask) => {
            let (_, mirror_mask, _) = select_summary(records, Selector::Mirror);
            let (count, _, _) = select_summary(records, Selector::MirrorStatus(mask));
            Ok(
                DtcInfoResponse::ReportNumberOfMirrorMemoryDTCByStatusMask {
                    avl_mask: mirror_mask,
                    fid: iso,
                    count: count as u16,
                },
            )
        },
        DtcInfoRequest::ReportNumberOfEmissionsOBDDTCByStatusMask(mask) => {
            let (_, emissions_mask, _) = select_summary(records, Selector::Emissions);
            let (count, _, _) = select_summary(records, Selector::EmissionsStatus(mask));
            Ok(
                DtcInfoResponse::ReportNumberOfEmissionsOBDDTCByStatusMask {
                    avl_mask: emissions_mask,
                    fid: iso,
                    count: count as u16,
                },
            )
        },
        DtcInfoRequest::ReportEmissionsOBDDTCByStatusMask(mask) => {
            let (_, emissions_mask, _) = select_summary(records, Selector::Emissions);
            let records = select_statuses(records, Selector::EmissionsStatus(mask));
            Ok(
                DtcInfoResponse::ReportEmissionsOBDDTCByStatusMask {
                    avl_mask: emissions_mask,
                    records,
                },
            )
        },
        DtcInfoRequest::ReportDTCFaultDetectionCounter => {
            if records.len() == 0 {
                Err(Nrc::RequestOutOfRange)
            } else {
                Ok(DtcInfoResponse::ReportDTCFaultDetectionCounter { records: fault_counters(records) })
            }
        },
        DtcInfoRequest::ReportDTCWithPermanentStatus => {
            let records = select_statuses(records, Selector::Permanent);
            if records.len() == 0 {
                Err(Nrc::RequestOutOfRange)
            } else {
                Ok(DtcInfoResponse::ReportDTCWithPermanentStatus { avl_mask, records })
            }
        },
        DtcInfoRequest::ReportDTCExtDataRecordByRecordNumber { extra_num } => {
            if extra_num == 0 {
                Err(Nrc::RequestOutOfRange)
            } else {
                match collect_payloads(records, extra_num, &cfg.dtc) {
                    Err(e) => Err(e),
                    Ok(records) => Ok(
                        DtcInfoResponse::ReportDTCExtDataRecordByRecordNumber {
                            number: extra_num,
                            records,
                        },
                    ),
                }
            }
        },
        DtcInfoRequest::ReportSupportedDTCExtDataRecord { extra_num } => {
            if !cfg.dtc.contains_key(&extra_num) {
                let empty: Vec<StatusRecord> = Vec::new();
                Ok(
                    DtcInfoResponse::ReportSupportedDTCExtDataRecord {
                        avl_mask,
                        number: None,
                        records: empty,
                    },
                )
            } else {
                match collect_payloads(records, extra_num, &cfg.dtc) {
                    Err(e) => Err(e),
                    Ok(p) => {
                        let records = payload_statuses(&p);
                        let number = if records.len() > 0 {
                            Some(extra_num)
                        } else {
                            None
                        };
                        Ok(
                            DtcInfoResponse::ReportSupportedDTCExtDataRecord {
                                avl_mask,
                                number,
                                records,
                            },
                        )
                    },
                }
            }
        },
        DtcInfoRequest::ReportWWHOBDDTCByMaskRecord { func_gid, status_mask, severity_mask } => {
            if func_gid == 0xFF {
                Err(Nrc::RequestOutOfRange)
            } else {
                match validated_wwh_fid(records, func_gid) {
                    Err(e) => Err(e),
                    Ok(fid) => {
                        let (_, status_avl_mask, severity_avl_mask) = select_summary(
                            records,
                            Selector::WwhGroup(func_gid),
                        );
                        let records = select_severities(
                            records,
                            Selector::WwhSeverity(func_gid, status_mask, severity_mask),
                        );
                        Ok(
                            DtcInfoResponse::ReportWWHOBDDTCByMaskRecord {
                                func_gid,
                                status_avl_mask,
                                severity_avl_mask,
                                fid,
                                records,
                            },
                        )
                    },
                }
            }
        },
        DtcInfoRequest::ReportWWHOBDDTCWithPermanentStatus { func_gid } => {
            if func_gid == 0xFF {
                Err(Nrc::RequestOutOfRange)
            } else {
                match validated_wwh_fid(records, func_gid) {
                    Err(e) => Err(e),
                    Ok(fid) => {
                        let (_, status_avl_mask, _) = select_summary(
                            records,
                            Selector::WwhGroup(func_gid),
                        );
                        let records = select_statuses(records, Selector::WwhPermanent(func_gid));
                        Ok(
                            DtcInfoResponse::ReportWWHOBDDTCWithPermanentStatus {
                                func_gid,
                                status_avl_mask,
                                fid,
                                records,
                            },
                        )
                    },
                }
            }
        },
        _ => Err(Nrc::SubFunctionNotSupported),
    }
}

/// A predicate that holds everywhere keeps everything.
proof fn lemma_keep_true(s: Seq<DtcRecordView>)
    ensures
        keep(s, selects(Selector::All)) == s,
    decreases s.len(),
{
    if s.len() > 0 {
        lemma_keep_true(s.drop_last());
        assert(s.drop_last().push(s.last()) =~= s);
    }
}

} // verus!
