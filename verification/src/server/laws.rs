//! Properties of the server that span several requests.
use vstd::prelude::*;

use super::context::{
    default_comm_state, read_did_answer, read_did_data, be_u16, did_value, memory_or_empty, meta_wf, reset_view, routine_step, start_transfer_step,
    timing_step, transfer_exit_step, transfer_step, ContextView, MemoryLocation, RoutineCtrlType,
    TimingParameterAccessType, TransferDirection, CHECK_PROGRAMMING_DEPENDENCIES,
};
use super::dtc::{
    status_of, StatusRecord, dtc_report, keep, status_hit, status_or, DtcFormat, DtcInfoRequest, DtcRecordView, DtcReport,
};
use super::uds_codec::timing_bytes;
use super::{SessionTiming, P2_MAX, P2_STAR_MAX};
use crate::nrc::Nrc;

verus! {

/// After a reset no routine has results: asking for them is out of
/// sequence.
pub proof fn law_reset_forgets_routine_results(v: ContextView, option_record: Seq<u8>)
    ensures
        routine_step(
            reset_view(v),
            RoutineCtrlType::RequestRoutineResults,
            CHECK_PROGRAMMING_DEPENDENCIES,
            option_record,
        ).0 == Err::<(u16, Option<u8>, Seq<u8>), Nrc>(Nrc::RequestSequenceError),
{
}

/// After a reset no transfer is in progress: TransferData and
/// RequestTransferExit are out of sequence.
pub proof fn law_reset_ends_transfer(v: ContextView, sequence: u8, data: Seq<u8>)
    ensures
        transfer_step(reset_view(v), sequence, data).0 == Err::<(u8, Seq<u8>), Nrc>(
            Nrc::RequestSequenceError,
        ),
        transfer_exit_step(reset_view(v), data).0 == Err::<Seq<u8>, Nrc>(
            Nrc::RequestSequenceError,
        ),
{
}

/// Reading a data identifier gives back what was last written to it.
pub proof fn law_did_read_after_write(v: ContextView, did: u16, data: Seq<u8>)
    ensures
        did_value(v.did_st.insert(did, data), v.config.cfg, did) == Some(data),
{
}

/// A started routine's results can be asked for: they are the byte 0x00.
pub proof fn law_routine_results_after_start(v: ContextView, option_record: Seq<u8>)
    ensures
        routine_step(
            routine_step(
                v,
                RoutineCtrlType::StartRoutine,
                CHECK_PROGRAMMING_DEPENDENCIES,
                Seq::empty(),
            ).1,
            RoutineCtrlType::RequestRoutineResults,
            CHECK_PROGRAMMING_DEPENDENCIES,
            option_record,
        ).0 == Ok::<(u16, Option<u8>, Seq<u8>), Nrc>(
            (CHECK_PROGRAMMING_DEPENDENCIES, Some(0u8), seq![0u8]),
        ),
{
}

/// A refused transfer request leaves the state as it was.
pub proof fn law_refused_transfer_keeps_state(v: ContextView, sequence: u8, data: Seq<u8>)
    ensures
        transfer_step(v, sequence, data).0 is Err ==> transfer_step(v, sequence, data).1 == v,
        transfer_exit_step(v, data).0 is Err ==> transfer_exit_step(v, data).1 == v,
{
}

/// A transfer in progress never moves more than its length.
pub proof fn law_transfer_within_length(v: ContextView, sequence: u8, data: Seq<u8>)
    requires
        meta_wf(v.transfer_meta),
    ensures
        meta_wf(transfer_step(v, sequence, data).1.transfer_meta),
{
}

/// A downloaded block is appended to the memory area, and the transfer can
/// be ended exactly when the whole area was sent.
pub proof fn law_download_appends(v: ContextView, loc: MemoryLocation, data: Seq<u8>, param: Seq<u8>)
    requires
        0 < data.len() <= loc.mem_size,
    ensures
        ({
            let v1 = start_transfer_step(v, TransferDirection::Download, 0, loc).1;
            let (r, v2) = transfer_step(v1, 1, data);
            &&& r == Ok::<(u8, Seq<u8>), Nrc>((1u8, Seq::empty()))
            &&& v2.memories[loc] == memory_or_empty(v.memories, loc) + data
            &&& (transfer_exit_step(v2, param).0 is Ok <==> data.len() == loc.mem_size)
        }),
{
}

/// What is downloaded to a fresh memory area is what an upload of that area
/// gives back.
pub proof fn law_upload_reads_download(v: ContextView, loc: MemoryLocation, data: Seq<u8>)
    requires
        !v.memories.contains_key(loc),
        data.len() == loc.mem_size,
        data.len() > 0,
    ensures
        ({
            let v1 = start_transfer_step(v, TransferDirection::Download, 0, loc).1;
            let v2 = transfer_step(v1, 1, data).1;
            let v3 = transfer_exit_step(v2, Seq::empty()).1;
            let v4 = start_transfer_step(v3, TransferDirection::Upload, 0, loc).1;
            transfer_step(v4, 1, Seq::empty()).0 == Ok::<(u8, Seq<u8>), Nrc>((1u8, data))
        }),
{
    let v1 = start_transfer_step(v, TransferDirection::Download, 0, loc).1;
    let v2 = transfer_step(v1, 1, data).1;
    assert(memory_or_empty(v.memories, loc) + data =~= data);
    assert(v2.memories[loc].subrange(0, data.len() as int) =~= data);
}

/// Timing parameters that were set are the ones read back; resetting them
/// gives the configured timing.
pub proof fn law_timing_set_then_read(v: ContextView, data: Seq<u8>, ignored: Seq<u8>)
    requires
        data.len() == 4,
        be_u16(data[0], data[1]) <= P2_MAX,
        be_u16(data[2], data[3]) <= P2_STAR_MAX,
    ensures
        timing_step(
            timing_step(v, TimingParameterAccessType::SetTimingParametersToGivenValues, data).1,
            TimingParameterAccessType::ReadCurrentlyActiveTimingParameters,
            ignored,
        ).0 == Ok::<Seq<u8>, Nrc>(
            timing_bytes(SessionTiming { p2: be_u16(data[0], data[1]), p2_star: be_u16(data[2], data[3]) }),
        ),
        timing_step(
            timing_step(
                v,
                TimingParameterAccessType::SetTimingParametersToDefaultValues,
                Seq::empty(),
            ).1,
            TimingParameterAccessType::ReadCurrentlyActiveTimingParameters,
            ignored,
        ).0 == Ok::<Seq<u8>, Nrc>(timing_bytes(v.config.timing)),
{
}

/// With no stored DTC, every status mask counts none.
pub proof fn law_no_dtc_counts_none(mask: u8, cfg: Map<u8, usize>)
    ensures
        dtc_report(DtcInfoRequest::ReportNumberOfDTCByStatusMask(mask), Seq::empty(), cfg) == Ok::<
            DtcReport,
            Nrc,
        >(DtcReport::NumberOfDTCByStatusMask { avl_mask: 0, fid: DtcFormat::Iso14229_1, count: 0 }),
{
}

/// The number of DTCs that match a status mask is the length of the list of
/// them, and both reports give the same availability mask.
pub proof fn law_count_matches_list(s: Seq<DtcRecordView>, mask: u8, cfg: Map<u8, usize>)
    ensures
        ({
            let n = dtc_report(DtcInfoRequest::ReportNumberOfDTCByStatusMask(mask), s, cfg);
            let l = dtc_report(DtcInfoRequest::ReportDTCByStatusMask(mask), s, cfg);
            &&& n matches Ok(DtcReport::NumberOfDTCByStatusMask { avl_mask: a1, count, .. })
            &&& l matches Ok(DtcReport::DTCByStatusMask { avl_mask: a2, records })
            &&& a1 == a2
            &&& count == records.len() as u16
        }),
{
}

proof fn lemma_or_absorbs(a: u8, k: u8, s: u8)
    requires
        a | k == k,
        k | s == s,
    ensures
        a | s == s,
{
    assert(a | k == k && k | s == s ==> a | s == s) by (bit_vector);
}

/// Each status byte is within the OR of all of them.
proof fn lemma_status_in_or(s: Seq<DtcRecordView>, i: int)
    requires
        0 <= i < s.len(),
    ensures
        s[i].status | status_or(s) == status_or(s),
    decreases s.len(),
{
    let x = status_or(s.drop_last());
    let c = s.last().status;
    assert(status_or(s) == x | c);
    if i == s.len() - 1 {
        assert(c | (x | c) == x | c) by (bit_vector);
    } else {
        lemma_status_in_or(s.drop_last(), i);
        assert(s.drop_last()[i] == s[i]);
        let a = s[i].status;
        assert(a | x == x ==> a | (x | c) == x | c) by (bit_vector);
    }
}

/// The OR over the records that a filter keeps is within the OR over all.
proof fn lemma_keep_or_within(s: Seq<DtcRecordView>, p: spec_fn(DtcRecordView) -> bool)
    ensures
        status_or(keep(s, p)) | status_or(s) == status_or(s),
    decreases s.len(),
{
    if s.len() == 0 {
        assert(0u8 | 0u8 == 0u8) by (bit_vector);
    } else {
        lemma_keep_or_within(s.drop_last(), p);
        let k = status_or(keep(s.drop_last(), p));
        let x = status_or(s.drop_last());
        let c = s.last().status;
        if p(s.last()) {
            assert(keep(s, p).drop_last() =~= keep(s.drop_last(), p));
            assert(status_or(keep(s, p)) == k | c);
            assert(k | x == x ==> (k | c) | (x | c) == x | c) by (bit_vector);
        } else {
            assert(k | x == x ==> k | (x | c) == x | c) by (bit_vector);
        }
    }
}

/// Every DTC that a status-mask report lists has its status bits within the
/// availability mask of that report.
pub proof fn law_listed_status_within_availability(
    s: Seq<DtcRecordView>,
    mask: u8,
    cfg: Map<u8, usize>,
    i: int,
)
    requires
        dtc_report(DtcInfoRequest::ReportDTCByStatusMask(mask), s, cfg) matches Ok(
            DtcReport::DTCByStatusMask { records, .. },
        ) && 0 <= i < records.len(),
    ensures
        dtc_report(DtcInfoRequest::ReportDTCByStatusMask(mask), s, cfg) matches Ok(
            DtcReport::DTCByStatusMask { avl_mask, records },
        ) && records[i].status | avl_mask == avl_mask,
{
    let k = keep(s, status_hit(mask));
    lemma_status_in_or(k, i);
    lemma_keep_or_within(s, status_hit(mask));
    lemma_or_absorbs(k[i].status, status_or(k), status_or(s));
}

/// Where no record satisfies `p`, `keep` keeps nothing.
proof fn lemma_keep_none(s: Seq<DtcRecordView>, p: spec_fn(DtcRecordView) -> bool)
    requires
        forall|j: int| 0 <= j < s.len() ==> !p(#[trigger] s[j]),
    ensures
        keep(s, p).len() == 0,
    decreases s.len(),
{
    if s.len() > 0 {
        assert forall|j: int| 0 <= j < s.drop_last().len() implies !p(#[trigger] s.drop_last()[j]) by {
            assert(s.drop_last()[j] == s[j]);
        }
        lemma_keep_none(s.drop_last(), p);
        assert(!p(s[s.len() - 1]));
    }
}

/// The first record that `keep` keeps is the earliest one that satisfies
/// `p`.
proof fn lemma_keep_first(s: Seq<DtcRecordView>, p: spec_fn(DtcRecordView) -> bool, i: int)
    requires
        0 <= i < s.len(),
        p(s[i]),
        forall|j: int| 0 <= j < i ==> !p(#[trigger] s[j]),
    ensures
        keep(s, p).len() > 0,
        keep(s, p)[0] == s[i],
    decreases s.len(),
{
    let d = s.drop_last();
    if i == s.len() - 1 {
        assert forall|j: int| 0 <= j < d.len() implies !p(#[trigger] d[j]) by {
            assert(d[j] == s[j]);
        }
        lemma_keep_none(d, p);
        assert(keep(s, p) == keep(d, p).push(s[i]));
    } else {
        assert(d[i] == s[i]);
        assert forall|j: int| 0 <= j < i implies !p(#[trigger] d[j]) by {
            assert(d[j] == s[j]);
        }
        lemma_keep_first(d, p, i);
        if p(s.last()) {
            assert(keep(s, p) == keep(d, p).push(s.last()));
        }
    }
}

/// The last record that `keep` keeps is the latest one that satisfies `p`.
proof fn lemma_keep_last(s: Seq<DtcRecordView>, p: spec_fn(DtcRecordView) -> bool, i: int)
    requires
        0 <= i < s.len(),
        p(s[i]),
        forall|j: int| i < j < s.len() ==> !p(#[trigger] s[j]),
    ensures
        keep(s, p).len() > 0,
        keep(s, p).last() == s[i],
    decreases s.len(),
{
    let d = s.drop_last();
    if i == s.len() - 1 {
        assert(keep(s, p) == keep(d, p).push(s[i]));
    } else {
        assert(d[i] == s[i]);
        assert forall|j: int| i < j < d.len() implies !p(#[trigger] d[j]) by {
            assert(d[j] == s[j]);
        }
        assert(!p(s[s.len() - 1]));
        lemma_keep_last(d, p, i);
    }
}

/// The FirstConfirmedDTC report names the earliest stored DTC whose status
/// has the confirmed bit (0x08), and the MostRecentConfirmedDTC report the
/// latest one.
pub proof fn law_first_and_latest_confirmed(
    s: Seq<DtcRecordView>,
    cfg: Map<u8, usize>,
    first: int,
    last: int,
)
    requires
        0 <= first <= last < s.len(),
        s[first].status & 0x08 != 0,
        s[last].status & 0x08 != 0,
        forall|j: int| 0 <= j < first ==> #[trigger] s[j].status & 0x08 == 0,
        forall|j: int| last < j < s.len() ==> #[trigger] s[j].status & 0x08 == 0,
    ensures
        dtc_report(DtcInfoRequest::ReportFirstConfirmedDTC, s, cfg) matches Ok(
            DtcReport::FirstConfirmedDTC { record: Some(r), .. },
        ) && r == (StatusRecord { dtc: s[first].dtc, status: s[first].status }),
        dtc_report(DtcInfoRequest::ReportMostRecentConfirmedDTC, s, cfg) matches Ok(
            DtcReport::MostRecentConfirmedDTC { record: Some(r), .. },
        ) && r == (StatusRecord { dtc: s[last].dtc, status: s[last].status }),
{
    let p = status_hit(0x08);
    assert forall|j: int| 0 <= j < first implies !p(#[trigger] s[j]) by {
        assert(s[j].status & 0x08 == 0);
    }
    assert forall|j: int| last < j < s.len() implies !p(#[trigger] s[j]) by {
        assert(s[j].status & 0x08 == 0);
    }
    lemma_keep_first(s, p, first);
    lemma_keep_last(s, p, last);
}

/// The FirstTestFailedDTC report names the earliest stored DTC whose status
/// has the test-failed bit (0x01), and the MostRecentTestFailedDTC report
/// the latest one.
pub proof fn law_first_and_latest_test_failed(
    s: Seq<DtcRecordView>,
    cfg: Map<u8, usize>,
    first: int,
    last: int,
)
    requires
        0 <= first <= last < s.len(),
        s[first].status & 0x01 != 0,
        s[last].status & 0x01 != 0,
        forall|j: int| 0 <= j < first ==> #[trigger] s[j].status & 0x01 == 0,
        forall|j: int| last < j < s.len() ==> #[trigger] s[j].status & 0x01 == 0,
    ensures
        dtc_report(DtcInfoRequest::ReportFirstTestFailedDTC, s, cfg) matches Ok(
            DtcReport::FirstTestFailedDTC { record: Some(r), .. },
        ) && r == (StatusRecord { dtc: s[first].dtc, status: s[first].status }),
        dtc_report(DtcInfoRequest::ReportMostRecentTestFailedDTC, s, cfg) matches Ok(
            DtcReport::MostRecentTestFailedDTC { record: Some(r), .. },
        ) && r == (StatusRecord { dtc: s[last].dtc, status: s[last].status }),
{
    let p = status_hit(0x01);
    assert forall|j: int| 0 <= j < first implies !p(#[trigger] s[j]) by {
        assert(s[j].status & 0x01 == 0);
    }
    assert forall|j: int| last < j < s.len() implies !p(#[trigger] s[j]) by {
        assert(s[j].status & 0x01 == 0);
    }
    lemma_keep_first(s, p, first);
    lemma_keep_last(s, p, last);
}

/// A data identifier that can be read at `level`: it has a value, and it
/// asks for no other security access level.
pub open spec fn did_readable(v: ContextView, did: u16, level: u8) -> bool {
    &&& did_value(v.did_st, v.config.cfg, did) is Some
    &&& !(v.config.did_sa_level@.contains_key(did) && v.config.did_sa_level@[did] != level)
}

/// An identifier's two bytes, high byte first, followed by its value.
pub open spec fn did_entry(v: ContextView, did: u16) -> Seq<u8> {
    seq![(did / 256) as u8, (did % 256) as u8] + did_value(v.did_st, v.config.cfg, did).unwrap()
}

/// ReadDataByIdentifier keeps what it answered for the identifiers before:
/// the answer for a list with one more readable identifier is the answer
/// for the list, followed by that identifier and its value.
pub proof fn law_read_did_appends(v: ContextView, dids: Seq<u16>, did: u16, level: u8)
    requires
        did_readable(v, did, level),
    ensures
        read_did_data(v, dids.push(did), level) == match read_did_data(v, dids, level) {
            Ok(a) => Ok::<Seq<u8>, Nrc>(a + did_entry(v, did)),
            Err(e) => Err(e),
        },
{
    assert(dids.push(did).drop_last() =~= dids);
    assert(dids.push(did).last() == did);
    if let Ok(a) = read_did_data(v, dids, level) {
        assert(a + seq![(did / 256) as u8, (did % 256) as u8] + did_value(
            v.did_st,
            v.config.cfg,
            did,
        ).unwrap() =~= a + did_entry(v, did));
    }
}

/// Two readable identifiers are both answered, in the order they were asked
/// for, each with its two bytes and its value; the answer's length is the
/// sum of theirs.
pub proof fn law_read_did_two(v: ContextView, a: u16, b: u16, level: u8)
    requires
        did_readable(v, a, level),
        did_readable(v, b, level),
    ensures
        read_did_answer(v, seq![a, b], level) == Ok::<Seq<u8>, Nrc>(
            did_entry(v, a) + did_entry(v, b),
        ),
        read_did_answer(v, seq![a, b], level) matches Ok(d) && d.len() == 4 + did_value(
            v.did_st,
            v.config.cfg,
            a,
        ).unwrap().len() + did_value(v.did_st, v.config.cfg, b).unwrap().len(),
{
    let e: Seq<u16> = Seq::empty();
    assert(read_did_data(v, e, level) == Ok::<Seq<u8>, Nrc>(Seq::empty()));
    law_read_did_appends(v, e, a, level);
    assert(e.push(a) =~= seq![a]);
    law_read_did_appends(v, seq![a], b, level);
    assert(seq![a].push(b) =~= seq![a, b]);
    assert(Seq::<u8>::empty() + did_entry(v, a) =~= did_entry(v, a));
}

/// After a reset the server is as after power-up (nothing dynamic written,
/// no seed, no DTCs, DTC setting on, the configured timing, default
/// communication, no routine results, no transfer), except that the static
/// data identifiers, the memory and the configuration stay.
pub proof fn law_reset_is_power_up(v: ContextView)
    ensures
        ({
            let r = reset_view(v);
            &&& r.config == v.config
            &&& r.did_st == v.did_st
            &&& r.memories == v.memories
            &&& r.did_dyn == Map::<u16, Seq<u8>>::empty()
            &&& r.sa_ctx is None
            &&& r.dtcs.len() == 0
            &&& r.dtc_setting_enabled
            &&& r.active_timing == v.config.timing
            &&& r.comm_ctrl_state == default_comm_state()
            &&& r.routine_results == Map::<u16, Seq<u8>>::empty()
            &&& r.transfer_meta is None
        }),
{
}

/// Setting the timing to given values never leaves a P2 above P2_MAX or a
/// P2* above P2_STAR_MAX in force: such values are refused as out of range,
/// with the state unchanged.
pub proof fn law_timing_set_within_maxima(v: ContextView, data: Seq<u8>)
    ensures
        ({
            let step = timing_step(v, TimingParameterAccessType::SetTimingParametersToGivenValues, data);
            &&& step.0 is Ok ==> step.1.active_timing.p2 <= P2_MAX && step.1.active_timing.p2_star
                <= P2_STAR_MAX
            &&& (data.len() == 4 && (data[0] as int * 256 + data[1] as int > P2_MAX as int
                || data[2] as int * 256 + data[3] as int > P2_STAR_MAX as int)) ==> step == (
                Err::<Seq<u8>, Nrc>(Nrc::RequestOutOfRange),
                v,
            )
        }),
{
}

/// A transfer is started only for the plain data format: a data format
/// identifier with a compression method (high nibble) or an encryption
/// method (low nibble) is refused with UploadDownloadNotAccepted, with the
/// state unchanged.
pub proof fn law_transfer_needs_plain_format(
    v: ContextView,
    direction: TransferDirection,
    dfi: u8,
    mem_loc: MemoryLocation,
)
    ensures
        (dfi & 0x0F != 0 || dfi >> 4u8 != 0) ==> start_transfer_step(v, direction, dfi, mem_loc) == (
            Err::<super::context::RequestLoadResponse, Nrc>(Nrc::UploadDownloadNotAccepted),
            v,
        ),
        start_transfer_step(v, direction, dfi, mem_loc).0 is Ok ==> dfi & 0x0F == 0 && dfi >> 4u8
            == 0,
{
    assert((dfi & 0x0F != 0 || dfi >> 4u8 != 0) <==> dfi != 0) by (bit_vector);
}

} // verus!
