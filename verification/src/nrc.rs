use vstd::prelude::*;

verus! {

/// The negative response codes that this library answers with or reads.
#[derive(Debug, Clone, Copy, PartialEq, Eq, Structural)]
pub enum Nrc {
    GeneralReject,
    ServiceNotSupported,
    SubFunctionNotSupported,
    IncorrectMessageLengthOrInvalidFormat,
    ConditionsNotCorrect,
    RequestSequenceError,
    RequestOutOfRange,
    SecurityAccessDenied,
    InvalidKey,
    UploadDownloadNotAccepted,
    WrongBlockSequenceCounter,
    ServiceNotSupportedInActiveSession,
}

/// The byte by which ISO 14229-1 encodes each code.
pub open spec fn spec_nrc_byte(c: Nrc) -> u8 {
    match c {
        Nrc::GeneralReject => 0x10,
        Nrc::ServiceNotSupported => 0x11,
        Nrc::SubFunctionNotSupported => 0x12,
        Nrc::IncorrectMessageLengthOrInvalidFormat => 0x13,
        Nrc::ConditionsNotCorrect => 0x22,
        Nrc::RequestSequenceError => 0x24,
        Nrc::RequestOutOfRange => 0x31,
        Nrc::SecurityAccessDenied => 0x33,
        Nrc::InvalidKey => 0x35,
        Nrc::UploadDownloadNotAccepted => 0x70,
        Nrc::WrongBlockSequenceCounter => 0x73,
        Nrc::ServiceNotSupportedInActiveSession => 0x7F,
    }
}

impl Nrc {
    /// The code's byte on the wire.
    pub fn byte(self) -> (b: u8)
        ensures
            b == spec_nrc_byte(self),
    {
        match self {
            Nrc::GeneralReject => 0x10,
            Nrc::ServiceNotSupported => 0x11,
            Nrc::SubFunctionNotSupported => 0x12,
            Nrc::IncorrectMessageLengthOrInvalidFormat => 0x13,
            Nrc::ConditionsNotCorrect => 0x22,
            Nrc::RequestSequenceError => 0x24,
            Nrc::RequestOutOfRange => 0x31,
            Nrc::SecurityAccessDenied => 0x33,
            Nrc::InvalidKey => 0x35,
            Nrc::UploadDownloadNotAccepted => 0x70,
            Nrc::WrongBlockSequenceCounter => 0x73,
            Nrc::ServiceNotSupportedInActiveSession => 0x7F,
        }
    }
}

} // verus!
