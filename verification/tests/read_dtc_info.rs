use docan_rs::config::Configuration;
use docan_rs::nrc::Nrc;
use docan_rs::server::context::Context;
use docan_rs::server::dtc::{
    build_read_dtc_response, DtcFormat, DtcInfoRequest, DtcInfoResponse, DtcRecord, WwhObdMeta,
};
use docan_rs::server::{Address, ByteOrder, Config, SessionTiming};

fn sample_record(dtc: u32, status: u8) -> DtcRecord {
    DtcRecord {
        dtc,
        status,
        severity: 0x20,
        func_unit: 0x01,
        fault_counter: 2,
        permanent: true,
        ext_data: vec![(0x02, vec![0xAA, 0xBB])],
        mirror: false,
        emissions_obd: false,
        wwh_obd: None,
    }
}

fn server_config() -> Config {
    Config {
        address: Address { tx_id: 0x7E0, rx_id: 0x7E8, fid: 0x7DF },
        timing: SessionTiming::max_timing(),
        extend_sa_level: 3,
        program_sa_level: 5,
        seed_len: 4,
        sa_salt: vec![1, 2, 3, 4],
        cfg: Configuration::new(),
        did_sa_level: Default::default(),
        byte_order: ByteOrder::Little,
    }
}

fn count_of(resp: DtcInfoResponse) -> u16 {
    match resp {
        DtcInfoResponse::ReportNumberOfDTCByStatusMask { count, .. } => count,
        _ => panic!("unexpected response variant"),
    }
}

#[test]
fn read_clear_read_dtc_flow() {
    let mut ctx = Context::new(server_config());
    ctx.replace_dtcs(vec![sample_record(0x112233, 0x08), sample_record(0x445566, 0x40)]);

    let before = build_read_dtc_response(
        DtcInfoRequest::ReportNumberOfDTCByStatusMask(0xFF),
        ctx.dtc_records(),
        ctx.get_cfg(),
    )
    .unwrap();
    assert_eq!(count_of(before), 2);

    let invalid_err = ctx.clear_diagnostic_info(0x112233, None).unwrap_err();
    assert_eq!(invalid_err, Nrc::RequestOutOfRange);

    let after_invalid = build_read_dtc_response(
        DtcInfoRequest::ReportNumberOfDTCByStatusMask(0xFF),
        ctx.dtc_records(),
        ctx.get_cfg(),
    )
    .unwrap();
    assert_eq!(count_of(after_invalid), 2);

    ctx.clear_diagnostic_info(0xFF_FF_FF, None).unwrap();

    let after_clear = build_read_dtc_response(
        DtcInfoRequest::ReportNumberOfDTCByStatusMask(0xFF),
        ctx.dtc_records(),
        ctx.get_cfg(),
    )
    .unwrap();
    assert_eq!(count_of(after_clear), 0);
}

#[test]
fn number_by_status_mask_counts_matching_records() {
    let records = vec![sample_record(0x112233, 0x08), sample_record(0x445566, 0x01)];
    let resp = build_read_dtc_response(
        DtcInfoRequest::ReportNumberOfDTCByStatusMask(0x08),
        &records,
        &Configuration::new(),
    )
    .unwrap();

    match resp {
        DtcInfoResponse::ReportNumberOfDTCByStatusMask { count, .. } => assert_eq!(count, 1),
        _ => panic!("unexpected response variant"),
    }
}

#[test]
fn dtc_by_status_mask_returns_filtered_records() {
    let records = vec![sample_record(0x112233, 0x08), sample_record(0x445566, 0x01)];
    let resp = build_read_dtc_response(
        DtcInfoRequest::ReportDTCByStatusMask(0x01),
        &records,
        &Configuration::new(),
    )
    .unwrap();

    match resp {
        DtcInfoResponse::ReportDTCByStatusMask { records, .. } => {
            assert_eq!(records.len(), 1);
            assert_eq!(records[0].dtc, 0x445566);
        }
        _ => panic!("unexpected response variant"),
    }
}

#[test]
fn ext_data_record_by_dtc_number_returns_matching_record_data() {
    let mut cfg = Configuration::new();
    cfg.dtc.insert(0x02, 2);
    let records = vec![sample_record(0x112233, 0x08)];
    let resp = build_read_dtc_response(
        DtcInfoRequest::ReportDTCExtDataRecordByDTCNumber {
            mask_record: 0x112233,
            extra_num: 0x02,
        },
        &records,
        &cfg,
    )
    .unwrap();

    match resp {
        DtcInfoResponse::ReportDTCExtDataRecordByDTCNumber { records, .. } => {
            assert_eq!(records.len(), 1);
            assert_eq!(records[0].0, 0x02);
            assert_eq!(records[0].1, vec![0xAA, 0xBB]);
        }
        _ => panic!("unexpected response variant"),
    }
}

#[test]
fn supported_dtc_rejects_empty_records() {
    let err = build_read_dtc_response(DtcInfoRequest::ReportSupportedDTC, &[], &Configuration::new())
        .unwrap_err();

    assert_eq!(err, Nrc::RequestOutOfRange);
}

#[test]
fn first_confirmed_dtc_rejects_when_no_confirmed_record_exists() {
    let records = vec![sample_record(0x112233, 0x01)];
    let err = build_read_dtc_response(
        DtcInfoRequest::ReportFirstConfirmedDTC,
        &records,
        &Configuration::new(),
    )
    .unwrap_err();

    assert_eq!(err, Nrc::RequestOutOfRange);
}

#[test]
fn fault_detection_counter_rejects_empty_records() {
    let err = build_read_dtc_response(
        DtcInfoRequest::ReportDTCFaultDetectionCounter,
        &[],
        &Configuration::new(),
    )
    .unwrap_err();

    assert_eq!(err, Nrc::RequestOutOfRange);
}

#[test]
fn ext_data_record_rejects_unconfigured_record_length() {
    let records = vec![sample_record(0x112233, 0x08)];
    let err = build_read_dtc_response(
        DtcInfoRequest::ReportDTCExtDataRecordByDTCNumber {
            mask_record: 0x112233,
            extra_num: 0x02,
        },
        &records,
        &Configuration::new(),
    )
    .unwrap_err();

    assert_eq!(err, Nrc::RequestOutOfRange);
}

#[test]
fn mirror_and_emissions_list_reports_allow_empty_filtered_results() {
    let records = vec![DtcRecord {
        dtc: 0x112233,
        status: 0x08,
        severity: 0x20,
        func_unit: 0x01,
        fault_counter: 2,
        permanent: true,
        ext_data: vec![(0x02, vec![0xAA, 0xBB])],
        mirror: true,
        emissions_obd: true,
        wwh_obd: None,
    }];

    let mirror_resp = build_read_dtc_response(
        DtcInfoRequest::ReportMirrorMemoryDTCByStatusMask(0x01),
        &records,
        &Configuration::new(),
    )
    .unwrap();
    match mirror_resp {
        DtcInfoResponse::ReportMirrorMemoryDTCByStatusMask { avl_mask, records } => {
            assert_eq!(avl_mask, 0x08);
            assert!(records.is_empty());
        }
        _ => panic!("unexpected response variant"),
    }

    let emissions_resp = build_read_dtc_response(
        DtcInfoRequest::ReportEmissionsOBDDTCByStatusMask(0x01),
        &records,
        &Configuration::new(),
    )
    .unwrap();
    match emissions_resp {
        DtcInfoResponse::ReportEmissionsOBDDTCByStatusMask { avl_mask, records } => {
            assert_eq!(avl_mask, 0x08);
            assert!(records.is_empty());
        }
        _ => panic!("unexpected response variant"),
    }
}

#[test]
fn ext_data_record_by_record_number_returns_matching_records() {
    let mut cfg = Configuration::new();
    cfg.dtc.insert(0x02, 2);

    let records = vec![
        sample_record(0x112233, 0x08),
        DtcRecord {
            dtc: 0x445566,
            status: 0x40,
            severity: 0x10,
            func_unit: 0x02,
            fault_counter: 1,
            permanent: false,
            ext_data: vec![(0x02, vec![0xCC, 0xDD])],
            mirror: false,
            emissions_obd: false,
            wwh_obd: None,
        },
    ];

    let resp = build_read_dtc_response(
        DtcInfoRequest::ReportDTCExtDataRecordByRecordNumber { extra_num: 0x02 },
        &records,
        &cfg,
    )
    .unwrap();

    match resp {
        DtcInfoResponse::ReportDTCExtDataRecordByRecordNumber { number, records } => {
            assert_eq!(number, 0x02);
            assert_eq!(records.len(), 2);
            assert_eq!(records[0].0.dtc, 0x112233);
            assert_eq!(records[0].1, vec![0xAA, 0xBB]);
            assert_eq!(records[1].0.dtc, 0x445566);
            assert_eq!(records[1].1, vec![0xCC, 0xDD]);
        }
        _ => panic!("unexpected response variant"),
    }
}

#[test]
fn ext_data_record_by_record_number_rejects_zero_record_number() {
    let mut cfg = Configuration::new();
    cfg.dtc.insert(0x02, 2);

    let records = vec![sample_record(0x112233, 0x08)];
    let err = build_read_dtc_response(
        DtcInfoRequest::ReportDTCExtDataRecordByRecordNumber { extra_num: 0x00 },
        &records,
        &cfg,
    )
    .unwrap_err();

    assert_eq!(err, Nrc::RequestOutOfRange);
}

#[test]
fn ext_data_record_by_record_number_returns_empty_when_no_record_matches() {
    let mut cfg = Configuration::new();
    cfg.dtc.insert(0x04, 4);

    let records = vec![sample_record(0x112233, 0x08)];
    let resp = build_read_dtc_response(
        DtcInfoRequest::ReportDTCExtDataRecordByRecordNumber { extra_num: 0x04 },
        &records,
        &cfg,
    )
    .unwrap();

    match resp {
        DtcInfoResponse::ReportDTCExtDataRecordByRecordNumber { number, records } => {
            assert_eq!(number, 0x04);
            assert!(records.is_empty());
        }
        _ => panic!("unexpected response variant"),
    }
}

#[test]
fn ext_data_record_by_record_number_rejects_unconfigured_number() {
    let records = vec![sample_record(0x112233, 0x08)];
    let err = build_read_dtc_response(
        DtcInfoRequest::ReportDTCExtDataRecordByRecordNumber { extra_num: 0x02 },
        &records,
        &Configuration::new(),
    )
    .unwrap_err();

    assert_eq!(err, Nrc::RequestOutOfRange);
}

#[test]
fn supported_ext_data_record_returns_matching_dtcs() {
    let mut cfg = Configuration::new();
    cfg.dtc.insert(0x02, 2);

    let records = vec![
        sample_record(0x112233, 0x08),
        DtcRecord {
            dtc: 0x445566,
            status: 0x40,
            severity: 0x10,
            func_unit: 0x02,
            fault_counter: 1,
            permanent: false,
            ext_data: vec![(0x04, vec![0x01, 0x02, 0x03, 0x04])],
            mirror: false,
            emissions_obd: false,
            wwh_obd: None,
        },
    ];

    let resp = build_read_dtc_response(
        DtcInfoRequest::ReportSupportedDTCExtDataRecord { extra_num: 0x02 },
        &records,
        &cfg,
    )
    .unwrap();

    match resp {
        DtcInfoResponse::ReportSupportedDTCExtDataRecord { avl_mask, number, records } => {
            assert_eq!(avl_mask, 0x48);
            assert_eq!(number, Some(0x02));
            assert_eq!(records.len(), 1);
            assert_eq!(records[0].dtc, 0x112233);
        }
        _ => panic!("unexpected response variant"),
    }
}

#[test]
fn supported_ext_data_record_returns_empty_when_unavailable() {
    let records = vec![sample_record(0x112233, 0x08)];
    let resp = build_read_dtc_response(
        DtcInfoRequest::ReportSupportedDTCExtDataRecord { extra_num: 0x04 },
        &records,
        &Configuration::new(),
    )
    .unwrap();

    match resp {
        DtcInfoResponse::ReportSupportedDTCExtDataRecord { avl_mask, number, records } => {
            assert_eq!(avl_mask, 0x08);
            assert_eq!(number, None);
            assert!(records.is_empty());
        }
        _ => panic!("unexpected response variant"),
    }
}

#[test]
fn severity_information_reports_the_requested_dtc() {
    let records = vec![sample_record(0x112233, 0x08), sample_record(0x445566, 0x01)];
    let resp = build_read_dtc_response(
        DtcInfoRequest::ReportSeverityInformationOfDTC { mask_record: 0x445566 },
        &records,
        &Configuration::new(),
    )
    .unwrap();
    match resp {
        DtcInfoResponse::ReportSeverityInformationOfDTC { avl_mask, records } => {
            assert_eq!(avl_mask, 0x09);
            assert_eq!(records.len(), 1);
            assert_eq!(records[0].dtc, 0x445566);
            assert_eq!(records[0].severity, 0x20);
            assert_eq!(records[0].func_unit, 0x01);
        }
        _ => panic!("unexpected response variant"),
    }
}

#[test]
fn fault_detection_counter_lists_each_record() {
    let records = vec![sample_record(0x112233, 0x08), sample_record(0x445566, 0x01)];
    let resp = build_read_dtc_response(
        DtcInfoRequest::ReportDTCFaultDetectionCounter,
        &records,
        &Configuration::new(),
    )
    .unwrap();
    match resp {
        DtcInfoResponse::ReportDTCFaultDetectionCounter { records } => {
            assert_eq!(records.len(), 2);
            assert_eq!(records[1].dtc, 0x445566);
            assert_eq!(records[1].counter, 2);
        }
        _ => panic!("unexpected response variant"),
    }
}

fn obd_records(second_fid: DtcFormat) -> Vec<DtcRecord> {
    vec![
        DtcRecord {
            dtc: 0x000001,
            status: 0x01,
            severity: 0x20,
            func_unit: 1,
            fault_counter: 5,
            permanent: true,
            ext_data: vec![(0x02, vec![1, 2])],
            mirror: false,
            emissions_obd: false,
            wwh_obd: Some(WwhObdMeta { func_gid: 0x10, fid: DtcFormat::SaeJ1939_73 }),
        },
        DtcRecord {
            dtc: 0x000002,
            status: 0x09,
            severity: 0x40,
            func_unit: 2,
            fault_counter: 6,
            permanent: false,
            ext_data: vec![(0x02, vec![3, 4]), (0x03, vec![5])],
            mirror: false,
            emissions_obd: false,
            wwh_obd: Some(WwhObdMeta { func_gid: 0x10, fid: second_fid }),
        },
        DtcRecord {
            dtc: 0x000003,
            status: 0x08,
            severity: 0x20,
            func_unit: 3,
            fault_counter: 7,
            permanent: true,
            ext_data: vec![],
            mirror: false,
            emissions_obd: false,
            wwh_obd: None,
        },
    ]
}

fn report(req: DtcInfoRequest, records: &[DtcRecord], cfg: &Configuration) -> Result<DtcInfoResponse, Nrc> {
    build_read_dtc_response(req, records, cfg)
}

#[test]
fn severity_mask_reports_first_and_others() {
    let records = obd_records(DtcFormat::SaeJ1939_73);
    let cfg = Configuration::new();
    match report(
        DtcInfoRequest::ReportDTCBySeverityMaskRecord { severity_mask: 0x20, status_mask: 0x09 },
        &records,
        &cfg,
    )
    .unwrap()
    {
        DtcInfoResponse::ReportDTCBySeverityMaskRecord { avl_mask, record, others } => {
            assert_eq!(avl_mask, 0x09);
            assert_eq!((record.dtc, record.severity, record.func_unit, record.status), (1, 0x20, 1, 0x01));
            assert_eq!(others.len(), 1);
            assert_eq!(others[0].dtc, 3);
        }
        other => panic!("unexpected report {:?}", other),
    }
    match report(
        DtcInfoRequest::ReportNumberOfDTCBySeverityMaskRecord { severity_mask: 0x20, status_mask: 0x09 },
        &records,
        &cfg,
    )
    .unwrap()
    {
        DtcInfoResponse::ReportNumberOfDTCBySeverityMaskRecord { count, .. } => assert_eq!(count, 2),
        other => panic!("unexpected report {:?}", other),
    }
    let err = report(
        DtcInfoRequest::ReportDTCBySeverityMaskRecord { severity_mask: 0x80, status_mask: 0xFF },
        &records,
        &cfg,
    )
    .unwrap_err();
    assert_eq!(err, Nrc::RequestOutOfRange);
}

#[test]
fn first_and_most_recent_reports_pick_the_ends() {
    let records = obd_records(DtcFormat::SaeJ1939_73);
    let cfg = Configuration::new();
    match report(DtcInfoRequest::ReportFirstTestFailedDTC, &records, &cfg).unwrap() {
        DtcInfoResponse::ReportFirstTestFailedDTC { record, .. } => assert_eq!(record.unwrap().dtc, 1),
        other => panic!("unexpected report {:?}", other),
    }
    match report(DtcInfoRequest::ReportMostRecentTestFailedDTC, &records, &cfg).unwrap() {
        DtcInfoResponse::ReportMostRecentTestFailedDTC { record, .. } => {
            let r = record.unwrap();
            assert_eq!((r.dtc, r.status), (2, 0x09));
        }
        other => panic!("unexpected report {:?}", other),
    }
    match report(DtcInfoRequest::ReportMostRecentConfirmedDTC, &records, &cfg).unwrap() {
        DtcInfoResponse::ReportMostRecentConfirmedDTC { record, .. } => assert_eq!(record.unwrap().dtc, 3),
        other => panic!("unexpected report {:?}", other),
    }
    match report(DtcInfoRequest::ReportDTCWithPermanentStatus, &records, &cfg).unwrap() {
        DtcInfoResponse::ReportDTCWithPermanentStatus { records, .. } => {
            assert_eq!(records.iter().map(|r| r.dtc).collect::<Vec<_>>(), vec![1, 3])
        }
        other => panic!("unexpected report {:?}", other),
    }
    let err = report(DtcInfoRequest::ReportDTCWithPermanentStatus, &records[1..2], &cfg).unwrap_err();
    assert_eq!(err, Nrc::RequestOutOfRange);
}

#[test]
fn wwh_obd_reports_use_the_functional_group() {
    let records = obd_records(DtcFormat::SaeJ1939_73);
    let cfg = Configuration::new();
    match report(
        DtcInfoRequest::ReportWWHOBDDTCByMaskRecord { func_gid: 0x10, status_mask: 0x08, severity_mask: 0x40 },
        &records,
        &cfg,
    )
    .unwrap()
    {
        DtcInfoResponse::ReportWWHOBDDTCByMaskRecord {
            func_gid,
            status_avl_mask,
            severity_avl_mask,
            fid,
            records,
        } => {
            assert_eq!(func_gid, 0x10);
            assert_eq!(status_avl_mask, 0x09);
            assert_eq!(severity_avl_mask, 0x60);
            assert_eq!(fid, DtcFormat::SaeJ1939_73);
            assert_eq!(records.len(), 1);
            assert_eq!((records[0].dtc, records[0].severity, records[0].status), (2, 0x40, 0x09));
        }
        other => panic!("unexpected report {:?}", other),
    }
    match report(DtcInfoRequest::ReportWWHOBDDTCWithPermanentStatus { func_gid: 0x10 }, &records, &cfg).unwrap() {
        DtcInfoResponse::ReportWWHOBDDTCWithPermanentStatus { status_avl_mask, fid, records, .. } => {
            assert_eq!(status_avl_mask, 0x09);
            assert_eq!(fid, DtcFormat::SaeJ1939_73);
            assert_eq!(records.iter().map(|r| r.dtc).collect::<Vec<_>>(), vec![1]);
        }
        other => panic!("unexpected report {:?}", other),
    }
    let reserved = DtcInfoRequest::ReportWWHOBDDTCWithPermanentStatus { func_gid: 0xFF };
    assert_eq!(report(reserved, &records, &cfg).unwrap_err(), Nrc::RequestOutOfRange);
    let unknown = DtcInfoRequest::ReportWWHOBDDTCWithPermanentStatus { func_gid: 0x11 };
    assert_eq!(report(unknown, &records, &cfg).unwrap_err(), Nrc::RequestOutOfRange);
    let mixed = obd_records(DtcFormat::SaeJ2012Da04);
    let req = DtcInfoRequest::ReportWWHOBDDTCWithPermanentStatus { func_gid: 0x10 };
    assert_eq!(report(req, &mixed, &cfg).unwrap_err(), Nrc::RequestOutOfRange);
}

#[test]
fn ext_data_reports_check_configured_lengths() {
    let records = obd_records(DtcFormat::SaeJ1939_73);
    let mut cfg = Configuration::new();
    cfg.dtc.insert(0x02, 2);
    let all = DtcInfoRequest::ReportDTCExtDataRecordByDTCNumber { mask_record: 2, extra_num: 0x00 };
    assert_eq!(report(all.clone(), &records, &cfg).unwrap_err(), Nrc::RequestOutOfRange);
    cfg.dtc.insert(0x03, 1);
    match report(all, &records, &cfg).unwrap() {
        DtcInfoResponse::ReportDTCExtDataRecordByDTCNumber { status_record, records } => {
            assert_eq!((status_record.dtc, status_record.status), (2, 0x09));
            assert_eq!(records, vec![(0x02, vec![3, 4]), (0x03, vec![5])]);
        }
        other => panic!("unexpected report {:?}", other),
    }
    match report(DtcInfoRequest::ReportDTCExtDataRecordByRecordNumber { extra_num: 0x02 }, &records, &cfg).unwrap() {
        DtcInfoResponse::ReportDTCExtDataRecordByRecordNumber { number, records } => {
            assert_eq!(number, 0x02);
            assert_eq!(records.iter().map(|(s, d)| (s.dtc, d.clone())).collect::<Vec<_>>(), vec![
                (1, vec![1, 2]),
                (2, vec![3, 4])
            ]);
        }
        other => panic!("unexpected report {:?}", other),
    }
}

#[test]
fn unsupported_reports_are_refused_by_sub_function() {
    let records = obd_records(DtcFormat::SaeJ1939_73);
    let cfg = Configuration::new();
    assert_eq!(
        report(DtcInfoRequest::ReportDTCSnapshotIdentification, &records, &cfg).unwrap_err(),
        Nrc::SubFunctionNotSupported
    );
    assert_eq!(
        report(
            DtcInfoRequest::ReportUserDefMemoryDTCByStatusMask { status_mask: 0xFF, mem_selection: 1 },
            &records,
            &cfg
        )
        .unwrap_err(),
        Nrc::SubFunctionNotSupported
    );
}
