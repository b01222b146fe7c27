use docan_rs::server::dtc::DtcInfoRequest;
use docan_rs::server::request_data::{auth_request_from, dtc_info_request_from};
use docan_rs::server::service::AuthRequest;
use docan_rs::server::dtc::DtcInfoRequest as D;
use iso14229_1::request::{self, Authentication as A, DTCInfo as R, Request};
use iso14229_1::{Configuration, Service};

// The library reads the parameters of ReadDTCInformation and
// Authentication requests itself; these tests hold its reading against
// the ISO 14229-1 crate's on many requests.

fn crate_dtc(f: u8, data: &[u8]) -> Result<DtcInfoRequest, ()> {
    let cfg = Configuration::default();
    let r = Request::new(Service::ReadDTCInfo, Some(f), data.to_vec(), &cfg).map_err(|_| ())?;
    let v = r.data::<R>(&cfg).map_err(|_| ())?;
    Ok(match v {
        R::ReportNumberOfDTCByStatusMask(m) => D::ReportNumberOfDTCByStatusMask(m),
        R::ReportDTCByStatusMask(m) => D::ReportDTCByStatusMask(m),
        R::ReportDTCSnapshotIdentification => D::ReportDTCSnapshotIdentification,
        R::ReportDTCSnapshotRecordByDTCNumber { mask_record, record_num } => {
            D::ReportDTCSnapshotRecordByDTCNumber { mask_record: mask_record.into(), record_num }
        }
        R::ReportDTCStoredDataByRecordNumber { stored_num } => D::ReportDTCStoredDataByRecordNumber { stored_num },
        R::ReportDTCExtDataRecordByDTCNumber { mask_record, extra_num } => {
            D::ReportDTCExtDataRecordByDTCNumber { mask_record: mask_record.into(), extra_num }
        }
        R::ReportNumberOfDTCBySeverityMaskRecord { severity_mask, status_mask } => {
            D::ReportNumberOfDTCBySeverityMaskRecord { severity_mask, status_mask }
        }
        R::ReportDTCBySeverityMaskRecord { severity_mask, status_mask } => {
            D::ReportDTCBySeverityMaskRecord { severity_mask, status_mask }
        }
        R::ReportSeverityInformationOfDTC { mask_record } => {
            D::ReportSeverityInformationOfDTC { mask_record: mask_record.into() }
        }
        R::ReportSupportedDTC => D::ReportSupportedDTC,
        R::ReportFirstTestFailedDTC => D::ReportFirstTestFailedDTC,
        R::ReportFirstConfirmedDTC => D::ReportFirstConfirmedDTC,
        R::ReportMostRecentTestFailedDTC => D::ReportMostRecentTestFailedDTC,
        R::ReportMostRecentConfirmedDTC => D::ReportMostRecentConfirmedDTC,
        R::ReportDTCFaultDetectionCounter => D::ReportDTCFaultDetectionCounter,
        R::ReportDTCWithPermanentStatus => D::ReportDTCWithPermanentStatus,
        R::ReportDTCExtDataRecordByRecordNumber { extra_num } => D::ReportDTCExtDataRecordByRecordNumber { extra_num },
        R::ReportUserDefMemoryDTCByStatusMask { status_mask, mem_selection } => {
            D::ReportUserDefMemoryDTCByStatusMask { status_mask, mem_selection }
        }
        R::ReportUserDefMemoryDTCSnapshotRecordByDTCNumber { mask_record, record_num, mem_selection } => {
            D::ReportUserDefMemoryDTCSnapshotRecordByDTCNumber {
                mask_record: mask_record.into(),
                record_num,
                mem_selection,
            }
        }
        R::ReportUserDefMemoryDTCExtDataRecordByDTCNumber { mask_record, extra_num, mem_selection } => {
            D::ReportUserDefMemoryDTCExtDataRecordByDTCNumber {
                mask_record: mask_record.into(),
                extra_num,
                mem_selection,
            }
        }
        R::ReportSupportedDTCExtDataRecord { extra_num } => D::ReportSupportedDTCExtDataRecord { extra_num },
        R::ReportWWHOBDDTCByMaskRecord { func_gid, status_mask, severity_mask } => {
            D::ReportWWHOBDDTCByMaskRecord { func_gid, status_mask, severity_mask }
        }
        R::ReportWWHOBDDTCWithPermanentStatus { func_gid } => D::ReportWWHOBDDTCWithPermanentStatus { func_gid },
        R::ReportDTCInformationByDTCReadinessGroupIdentifier { func_gid, readiness_gid } => {
            D::ReportDTCInformationByDTCReadinessGroupIdentifier { func_gid, readiness_gid }
        }
    })
}

#[test]
fn dtc_reports_agree_with_the_crate() {
    let bytes = [0x12u8, 0x34, 0x56, 0x78, 0x9A, 0xBC, 0xDE];
    for f in 0..0x80u8 {
        for n in 0..=bytes.len() {
            let data = &bytes[..n];
            assert_eq!(dtc_info_request_from(f, data), crate_dtc(f, data), "function {:02X}, {} bytes", f, n);
        }
    }
}

#[test]
fn dtc_mask_record_is_big_endian() {
    assert_eq!(
        dtc_info_request_from(0x04, &[0x01, 0x02, 0x03, 0x07]),
        Ok(DtcInfoRequest::ReportDTCSnapshotRecordByDTCNumber { mask_record: 0x010203, record_num: 0x07 })
    );
}

/// The bytes of a length-prefixed field, without the prefix.
fn field(bytes: Vec<u8>) -> Vec<u8> {
    bytes[2..].to_vec()
}

fn crate_auth(task: u8, data: &[u8]) -> Result<AuthRequest, ()> {
    let cfg = Configuration::default();
    let r = Request::new(Service::Authentication, Some(task), data.to_vec(), &cfg).map_err(|_| ())?;
    let v = r.data::<A>(&cfg).map_err(|_| ())?;
    Ok(match v {
        A::DeAuthenticate => AuthRequest::DeAuthenticate,
        A::VerifyCertificateUnidirectional { config, certificate, challenge } => {
            AuthRequest::VerifyCertificateUnidirectional {
                config,
                certificate: field(certificate.into()),
                challenge: field(challenge.into()),
            }
        }
        A::VerifyCertificateBidirectional { config, certificate, challenge } => {
            AuthRequest::VerifyCertificateBidirectional {
                config,
                certificate: field(certificate.into()),
                challenge: field(challenge.into()),
            }
        }
        A::ProofOfOwnership { proof_of_ownership, ephemeral_public_key } => AuthRequest::ProofOfOwnership {
            proof_of_ownership: field(proof_of_ownership.into()),
            ephemeral_public_key: field(ephemeral_public_key.into()),
        },
        A::TransmitCertificate { cert_evaluation_id, certificate } => {
            AuthRequest::TransmitCertificate { cert_evaluation_id, certificate: field(certificate.into()) }
        }
        A::RequestChallengeForAuthentication { config, algo_indicator } => {
            AuthRequest::RequestChallengeForAuthentication { config, algo_indicator: algo_indicator.into() }
        }
        A::VerifyProofOfOwnershipUnidirectional { algo_indicator, proof_of_ownership, challenge, additional } => {
            AuthRequest::VerifyProofOfOwnershipUnidirectional {
                algo_indicator: algo_indicator.into(),
                proof_of_ownership: field(proof_of_ownership.into()),
                challenge: field(challenge.into()),
                additional: field(additional.into()),
            }
        }
        A::VerifyProofOfOwnershipBidirectional { algo_indicator, proof_of_ownership, challenge, additional } => {
            AuthRequest::VerifyProofOfOwnershipBidirectional {
                algo_indicator: algo_indicator.into(),
                proof_of_ownership: field(proof_of_ownership.into()),
                challenge: field(challenge.into()),
                additional: field(additional.into()),
            }
        }
        A::AuthenticationConfiguration => AuthRequest::AuthenticationConfiguration,
    })
}

#[test]
fn authentication_tasks_agree_with_the_crate() {
    // Bytes drawn from {0, 0, 1, 2}, so that many length prefixes fit.
    let mut state: u32 = 12345;
    let mut next = move || {
        state = state.wrapping_mul(1_103_515_245).wrapping_add(12345);
        [0u8, 0, 1, 2][((state >> 16) % 4) as usize]
    };
    let mut accepted = 0;
    for round in 0..20000u32 {
        let task = (round % 10) as u8;
        let len = (round / 10 % 40) as usize;
        let data: Vec<u8> = (0..len).map(|_| next()).collect();
        let ours = format!("{:?}", auth_request_from(task, &data));
        let theirs = crate_auth(task, &data);
        if theirs.is_ok() {
            accepted += 1;
        }
        assert_eq!(ours, format!("{:?}", theirs), "task {}, data {:?}", task, data);
    }
    assert!(accepted > 1000);
}

#[test]
fn authentication_fields_are_length_prefixed() {
    let r = auth_request_from(0x04, &[0x12, 0x34, 0x00, 0x02, 0xAA, 0xBB, 0xFF]);
    match r {
        Ok(AuthRequest::TransmitCertificate { cert_evaluation_id, certificate }) => {
            assert_eq!(cert_evaluation_id, 0x1234);
            assert_eq!(certificate, vec![0xAA, 0xBB]);
        }
        other => panic!("unexpected {:?}", other),
    }
    assert!(auth_request_from(0x04, &[0x12, 0x34, 0x00, 0x00, 0xAA]).is_err());
}
