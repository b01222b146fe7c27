//! The parameters of ReadDTCInformation and Authentication requests, read
//! from a request's data once the ISO 14229-1 crate has accepted it: fixed
//! positions for the DTC reports, length-prefixed fields for the
//! authentication tasks.
use vstd::prelude::*;

use super::dtc::DtcInfoRequest;
use super::service::{AuthRequest, AuthRequestView};

verus! {

/// A three-byte big-endian number.
pub open spec fn be24(a: u8, b: u8, c: u8) -> u32 {
    (a as int * 0x10000 + b as int * 0x100 + c as int) as u32
}

/// A two-byte big-endian number.
pub open spec fn be16(a: u8, b: u8) -> u16 {
    (a as int * 0x100 + b as int) as u16
}

/// The report that a ReadDTCInformation request asks for: the function of
/// its sub-function selects the report, and the data must have exactly the
/// length that the report's parameters take.
pub open spec fn spec_dtc_info_request(f: u8, d: Seq<u8>) -> Result<DtcInfoRequest, ()> {
    let n = d.len();
    if f == 0x01 && n == 1 {
        Ok(DtcInfoRequest::ReportNumberOfDTCByStatusMask(d[0]))
    } else if f == 0x02 && n == 1 {
        Ok(DtcInfoRequest::ReportDTCByStatusMask(d[0]))
    } else if f == 0x03 && n == 0 {
        Ok(DtcInfoRequest::ReportDTCSnapshotIdentification)
    } else if f == 0x04 && n == 4 {
        Ok(
            DtcInfoRequest::ReportDTCSnapshotRecordByDTCNumber {
                mask_record: be24(d[0], d[1], d[2]),
                record_num: d[3],
            },
        )
    } else if f == 0x05 && n == 1 {
        Ok(DtcInfoRequest::ReportDTCStoredDataByRecordNumber { stored_num: d[0] })
    } else if f == 0x06 && n == 4 {
        Ok(
            DtcInfoRequest::ReportDTCExtDataRecordByDTCNumber {
                mask_record: be24(d[0], d[1], d[2]),
                extra_num: d[3],
            },
        )
    } else if f == 0x07 && n == 2 {
        Ok(
            DtcInfoRequest::ReportNumberOfDTCBySeverityMaskRecord {
                severity_mask: d[0],
                status_mask: d[1],
            },
        )
    } else if f == 0x08 && n == 2 {
        Ok(DtcInfoRequest::ReportDTCBySeverityMaskRecord { severity_mask: d[0], status_mask: d[1] })
    } else if f == 0x09 && n == 3 {
        Ok(DtcInfoRequest::ReportSeverityInformationOfDTC { mask_record: be24(d[0], d[1], d[2]) })
    } else if f == 0x0A && n == 0 {
        Ok(DtcInfoRequest::ReportSupportedDTC)
    } else if f == 0x0B && n == 0 {
        Ok(DtcInfoRequest::ReportFirstTestFailedDTC)
    } else if f == 0x0C && n == 0 {
        Ok(DtcInfoRequest::ReportFirstConfirmedDTC)
    } else if f == 0x0D && n == 0 {
        Ok(DtcInfoRequest::ReportMostRecentTestFailedDTC)
    } else if f == 0x0E && n == 0 {
        Ok(DtcInfoRequest::ReportMostRecentConfirmedDTC)
    } else if f == 0x14 && n == 0 {
        Ok(DtcInfoRequest::ReportDTCFaultDetectionCounter)
    } else if f == 0x15 && n == 0 {
        Ok(DtcInfoRequest::ReportDTCWithPermanentStatus)
    } else if f == 0x16 && n == 1 {
        Ok(DtcInfoRequest::ReportDTCExtDataRecordByRecordNumber { extra_num: d[0] })
    } else if f == 0x17 && n == 2 {
        Ok(
            DtcInfoRequest::ReportUserDefMemoryDTCByStatusMask {
                status_mask: d[0],
                mem_selection: d[1],
            },
        )
    } else if f == 0x18 && n == 5 {
        Ok(
            DtcInfoRequest::ReportUserDefMemoryDTCSnapshotRecordByDTCNumber {
                mask_record: be24(d[0], d[1], d[2]),
                record_num: d[3],
                mem_selection: d[4],
            },
        )
    } else if f == 0x19 && n == 5 {
        Ok(
            DtcInfoRequest::ReportUserDefMemoryDTCExtDataRecordByDTCNumber {
                mask_record: be24(d[0], d[1], d[2]),
                extra_num: d[3],
                mem_selection: d[4],
            },
        )
    } else if f == 0x1A && n == 1 {
        Ok(DtcInfoRequest::ReportSupportedDTCExtDataRecord { extra_num: d[0] })
    } else if f == 0x42 && n == 3 {
        Ok(
            DtcInfoRequest::ReportWWHOBDDTCByMaskRecord {
                func_gid: d[0],
                status_mask: d[1],
                severity_mask: d[2],
            },
        )
    } else if f == 0x55 && n == 1 {
        Ok(DtcInfoRequest::ReportWWHOBDDTCWithPermanentStatus { func_gid: d[0] })
    } else if f == 0x56 && n == 2 {
        Ok(
            DtcInfoRequest::ReportDTCInformationByDTCReadinessGroupIdentifier {
                func_gid: d[0],
                readiness_gid: d[1],
            },
        )
    } else {
        Err(())
    }
}

/// Three bytes read as a big-endian number.
pub fn read_be24(a: u8, b: u8, c: u8) -> (v: u32)
    ensures
        v == be24(a, b, c),
{
    (a as u32) * 0x10000 + (b as u32) * 0x100 + (c as u32)
}

/// Two bytes read as a big-endian number.
pub fn read_be16(a: u8, b: u8) -> (v: u16)
    ensures
        v == be16(a, b),
{
    (a as u16) * 0x100 + (b as u16)
}

/// Reads the report that a ReadDTCInformation request with function `f`
/// and data `d` asks for.
pub fn dtc_info_request_from(f: u8, d: &[u8]) -> (r: Result<DtcInfoRequest, ()>)
    ensures
        r == spec_dtc_info_request(f, d@),
{
    let n = d.len();
    if f == 0x01 && n == 1 {
        Ok(DtcInfoRequest::ReportNumberOfDTCByStatusMask(d[0]))
    } else if f == 0x02 && n == 1 {
        Ok(DtcInfoRequest::ReportDTCByStatusMask(d[0]))
    } else if f == 0x03 && n == 0 {
        Ok(DtcInfoRequest::ReportDTCSnapshotIdentification)
    } else if f == 0x04 && n == 4 {
        Ok(
            DtcInfoRequest::ReportDTCSnapshotRecordByDTCNumber {
                mask_record: read_be24(d[0], d[1], d[2]),
                record_num: d[3],
            },
        )
    } else if f == 0x05 && n == 1 {
        Ok(DtcInfoRequest::ReportDTCStoredDataByRecordNumber { stored_num: d[0] })
    } else if f == 0x06 && n == 4 {
        Ok(
            DtcInfoRequest::ReportDTCExtDataRecordByDTCNumber {
                mask_record: read_be24(d[0], d[1], d[2]),
                extra_num: d[3],
            },
        )
    } else if f == 0x07 && n == 2 {
        Ok(
            DtcInfoRequest::ReportNumberOfDTCBySeverityMaskRecord {
                severity_mask: d[0],
                status_mask: d[1],
            },
        )
    } else if f == 0x08 && n == 2 {
        Ok(DtcInfoRequest::ReportDTCBySeverityMaskRecord { severity_mask: d[0], status_mask: d[1] })
    } else if f == 0x09 && n == 3 {
        Ok(
            DtcInfoRequest::ReportSeverityInformationOfDTC {
                mask_record: read_be24(d[0], d[1], d[2]),
            },
        )
    } else if f == 0x0A && n == 0 {
        Ok(DtcInfoRequest::ReportSupportedDTC)
    } else if f == 0x0B && n == 0 {
        Ok(DtcInfoRequest::ReportFirstTestFailedDTC)
    } else if f == 0x0C && n == 0 {
        Ok(DtcInfoRequest::ReportFirstConfirmedDTC)
    } else if f == 0x0D && n == 0 {
        Ok(DtcInfoRequest::ReportMostRecentTestFailedDTC)
    } else if f == 0x0E && n == 0 {
        Ok(DtcInfoRequest::ReportMostRecentConfirmedDTC)
    } else if f == 0x14 && n == 0 {
        Ok(DtcInfoRequest::ReportDTCFaultDetectionCounter)
    } else if f == 0x15 && n == 0 {
        Ok(DtcInfoRequest::ReportDTCWithPermanentStatus)
    } else if f == 0x16 && n == 1 {
        Ok(DtcInfoRequest::ReportDTCExtDataRecordByRecordNumber { extra_num: d[0] })
    } else if f == 0x17 && n == 2 {
        Ok(
            DtcInfoRequest::ReportUserDefMemoryDTCByStatusMask {
                status_mask: d[0],
                mem_selection: d[1],
            },
        )
    } else if f == 0x18 && n == 5 {
        Ok(
            DtcInfoRequest::ReportUserDefMemoryDTCSnapshotRecordByDTCNumber {
                mask_record: read_be24(d[0], d[1], d[2]),
                record_num: d[3],
                mem_selection: d[4],
            },
        )
    } else if f == 0x19 && n == 5 {
        Ok(
            DtcInfoRequest::ReportUserDefMemoryDTCExtDataRecordByDTCNumber {
                mask_record: read_be24(d[0], d[1], d[2]),
                extra_num: d[3],
                mem_selection: d[4],
            },
        )
    } else if f == 0x1A && n == 1 {
        Ok(DtcInfoRequest::ReportSupportedDTCExtDataRecord { extra_num: d[0] })
    } else if f == 0x42 && n == 3 {
        Ok(
            DtcInfoRequest::ReportWWHOBDDTCByMaskRecord {
                func_gid: d[0],
                status_mask: d[1],
                severity_mask: d[2],
            },
        )
    } else if f == 0x55 && n == 1 {
        Ok(DtcInfoRequest::ReportWWHOBDDTCWithPermanentStatus { func_gid: d[0] })
    } else if f == 0x56 && n == 2 {
        Ok(
            DtcInfoRequest::ReportDTCInformationByDTCReadinessGroupIdentifier {
                func_gid: d[0],
                readiness_gid: d[1],
            },
        )
    } else {
        Err(())
    }
}

/// The length of an algorithm indicator.
pub const ALGORITHM_INDICATOR_LENGTH: usize = 16;

/// A length-prefixed field that starts at `off`: two bytes of length,
/// big-endian, then that many bytes; with the offset after the field. A
/// field that is not `nullable` may not be empty.
pub open spec fn spec_field(d: Seq<u8>, off: int, nullable: bool) -> Option<(Seq<u8>, int)> {
    if 0 <= off && off + 2 <= d.len() {
        let len = d[off] as int * 0x100 + d[off + 1] as int;
        if (!nullable && len == 0) || off + 2 + len > d.len() {
            None
        } else {
            Some((d.subrange(off + 2, off + 2 + len), off + 2 + len))
        }
    } else {
        None
    }
}

/// The task that an Authentication request with task byte `task` and data
/// `d` asks for, with its fields. Bytes after the last field are not read.
pub open spec fn spec_auth_request(task: u8, d: Seq<u8>) -> Result<AuthRequestView, ()> {
    let n = d.len();
    if task == 0x00 {
        if n == 0 {
            Ok(AuthRequestView::DeAuthenticate)
        } else {
            Err(())
        }
    } else if task == 0x01 {
        if n < 5 {
            Err(())
        } else {
            match spec_field(d, 1, false) {
                None => Err(()),
                Some((certificate, o)) => match spec_field(d, o, true) {
                    None => Err(()),
                    Some((challenge, _)) => Ok(
                        AuthRequestView::VerifyCertificateUnidirectional {
                            config: d[0],
                            certificate,
                            challenge,
                        },
                    ),
                },
            }
        }
    } else if task == 0x02 {
        if n < 7 {
            Err(())
        } else {
            match spec_field(d, 1, false) {
                None => Err(()),
                Some((certificate, o)) => match spec_field(d, o, false) {
                    None => Err(()),
                    Some((challenge, _)) => Ok(
                        AuthRequestView::VerifyCertificateBidirectional {
                            config: d[0],
                            certificate,
                            challenge,
                        },
                    ),
                },
            }
        }
    } else if task == 0x03 {
        if n < 2 {
            Err(())
        } else {
            match spec_field(d, 0, false) {
                None => Err(()),
                Some((proof_of_ownership, o)) => match spec_field(d, o, true) {
                    None => Err(()),
                    Some((ephemeral_public_key, _)) => Ok(
                        AuthRequestView::ProofOfOwnership { proof_of_ownership, ephemeral_public_key },
                    ),
                },
            }
        }
    } else if task == 0x04 {
        if n < 5 {
            Err(())
        } else {
            match spec_field(d, 2, false) {
                None => Err(()),
                Some((certificate, _)) => Ok(
                    AuthRequestView::TransmitCertificate {
                        cert_evaluation_id: be16(d[0], d[1]),
                        certificate,
                    },
                ),
            }
        }
    } else if task == 0x05 {
        if n < 17 {
            Err(())
        } else {
            Ok(
                AuthRequestView::RequestChallengeForAuthentication {
                    config: d[0],
                    algo_indicator: d.subrange(1, 17),
                },
            )
        }
    } else if task == 0x06 || task == 0x07 {
        if (task == 0x06 && n < 19) || (task == 0x07 && n < 24) {
            Err(())
        } else {
            match spec_field(d, 16, false) {
                None => Err(()),
                Some((proof_of_ownership, o1)) => match spec_field(d, o1, task == 0x06) {
                    None => Err(()),
                    Some((challenge, o2)) => match spec_field(d, o2, true) {
                        None => Err(()),
                        Some((additional, _)) => if task == 0x06 {
                            Ok(
                                AuthRequestView::VerifyProofOfOwnershipUnidirectional {
                                    algo_indicator: d.subrange(0, 16),
                                    proof_of_ownership,
                                    challenge,
                                    additional,
                                },
                            )
                        } else {
                            Ok(
                                AuthRequestView::VerifyProofOfOwnershipBidirectional {
                                    algo_indicator: d.subrange(0, 16),
                                    proof_of_ownership,
                                    challenge,
                                    additional,
                                },
                            )
                        },
                    },
                },
            }
        }
    } else if task == 0x08 {
        if n == 0 {
            Ok(AuthRequestView::AuthenticationConfiguration)
        } else {
            Err(())
        }
    } else {
        Err(())
    }
}

/// The bytes of `d` from `start` up to `end`.
pub fn copy_range(d: &[u8], start: usize, end: usize) -> (v: Vec<u8>)
    requires
        start <= end <= d.len(),
    ensures
        v@ == d@.subrange(start as int, end as int),
{
    let mut v: Vec<u8> = Vec::new();
    let mut i: usize = start;
    while i < end
        invariant
            start <= i <= end <= d.len(),
            v@ == d@.subrange(start as int, i as int),
        decreases end - i,
    {
        v.push(d[i]);
        i = i + 1;
    }
    v
}

/// Reads the length-prefixed field at `off`, and the offset after it.
pub fn read_field(d: &[u8], off: usize, nullable: bool) -> (r: Option<(Vec<u8>, usize)>)
    ensures
        match r {
            Some((v, o)) => spec_field(d@, off as int, nullable) == Some((v@, o as int)),
            None => spec_field(d@, off as int, nullable) is None,
        },
{
    if off > d.len() || d.len() - off < 2 {
        return None;
    }
    let len = (d[off] as usize) * 0x100 + (d[off + 1] as usize);
    if (!nullable && len == 0) || len > d.len() - off - 2 {
        return None;
    }
    let start = off + 2;
    let v = copy_range(d, start, start + len);
    Some((v, start + len))
}

/// Reads the task that an Authentication request with task byte `task`
/// and data `d` asks for, with its fields.
pub fn auth_request_from(task: u8, d: &[u8]) -> (r: Result<AuthRequest, ()>)
    ensures
        match r {
            Ok(a) => spec_auth_request(task, d@) == Ok::<AuthRequestView, ()>(a@),
            Err(_) => spec_auth_request(task, d@) is Err,
        },
{
    let n = d.len();
    if task == 0x00 {
        if n == 0 {
            Ok(AuthRequest::DeAuthenticate)
        } else {
            Err(())
        }
    } else if task == 0x01 || task == 0x02 {
        if (task == 0x01 && n < 5) || (task == 0x02 && n < 7) {
            return Err(());
        }
        let (certificate, o) = match read_field(d, 1, false) {
            Some(f) => f,
            None => return Err(()),
        };
        let (challenge, _) = match read_field(d, o, task == 0x01) {
            Some(f) => f,
            None => return Err(()),
        };
        if task == 0x01 {
            Ok(AuthRequest::VerifyCertificateUnidirectional { config: d[0], certificate, challenge })
        } else {
            Ok(AuthRequest::VerifyCertificateBidirectional { config: d[0], certificate, challenge })
        }
    } else if task == 0x03 {
        if n < 2 {
            return Err(());
        }
        let (proof_of_ownership, o) = match read_field(d, 0, false) {
            Some(f) => f,
            None => return Err(()),
        };
        let (ephemeral_public_key, _) = match read_field(d, o, true) {
            Some(f) => f,
            None => return Err(()),
        };
        Ok(AuthRequest::ProofOfOwnership { proof_of_ownership, ephemeral_public_key })
    } else if task == 0x04 {
        if n < 5 {
            return Err(());
        }
        let (certificate, _) = match read_field(d, 2, false) {
            Some(f) => f,
            None => return Err(()),
        };
        Ok(
            AuthRequest::TransmitCertificate {
                cert_evaluation_id: read_be16(d[0], d[1]),
                certificate,
            },
        )
    } else if task == 0x05 {
        if n < 17 {
            return Err(());
        }
        Ok(
            AuthRequest::RequestChallengeForAuthentication {
                config: d[0],
                algo_indicator: copy_range(d, 1, 17),
            },
        )
    } else if task == 0x06 || task == 0x07 {
        if (task == 0x06 && n < 19) || (task == 0x07 && n < 24) {
            return Err(());
        }
        let algo_indicator = copy_range(d, 0, ALGORITHM_INDICATOR_LENGTH);
        let (proof_of_ownership, o1) = match read_field(d, 16, false) {
            Some(f) => f,
            None => return Err(()),
        };
        let (challenge, o2) = match read_field(d, o1, task == 0x06) {
            Some(f) => f,
            None => return Err(()),
        };
        let (additional, _) = match read_field(d, o2, true) {
            Some(f) => f,
            None => return Err(()),
        };
        if task == 0x06 {
            Ok(
                AuthRequest::VerifyProofOfOwnershipUnidirectional {
                    algo_indicator,
                    proof_of_ownership,
                    challenge,
                    additional,
                },
            )
        } else {
            Ok(
                AuthRequest::VerifyProofOfOwnershipBidirectional {
                    algo_indicator,
                    proof_of_ownership,
                    challenge,
                    additional,
                },
            )
        }
    } else if task == 0x08 {
        if n == 0 {
            Ok(AuthRequest::AuthenticationConfiguration)
        } else {
            Err(())
        }
    } else {
        Err(())
    }
}

} // verus!
