//! The typed errors of the fleet's operations, and how a failure of the
//! attestation verifier is reported as one of them.

use vstd::prelude::*;
use vstd::std_specs::convert::FromSpecImpl;

verus! {

/// Why the verifier of DCAP quotes turned a quote down.
#[derive(Clone, Copy, Debug, PartialEq, Eq)]
pub enum DcapError {
    InvalidCertificate,
    InvalidSignature,
    CodecError,
    TCBInfoExpired,
    KeyLengthIsInvalid,
    PublicKeyIsInvalid,
    RsaSignatureIsInvalid,
    DerEncodingError,
    UnsupportedDCAPQuoteVersion,
    UnsupportedDCAPAttestationKeyType,
    UnsupportedQuoteAuthData,
    UnsupportedDCAPPckCertFormat,
    LeafCertificateParsingError,
    CertificateChainIsInvalid,
    CertificateChainIsTooShort,
    IntelExtensionCertificateDecodingError,
    IntelExtensionAmbiguity,
    CpuSvnLengthMismatch,
    CpuSvnDecodingError,
    PceSvnDecodingError,
    PceSvnLengthMismatch,
    FmspcLengthMismatch,
    FmspcDecodingError,
    FmspcMismatch,
    QEReportHashMismatch,
    IsvEnclaveReportSignatureIsInvalid,
    DerDecodingError,
    OidIsMissing,
}

/// Why a piece of attestation evidence was turned down.
#[derive(Clone, Copy, Debug, PartialEq, Eq)]
pub enum AttestationError {
    /// The measured binary is not on the allow-list.
    PflixRejected,
    /// The certificate that signed the report is not acceptable.
    InvalidIASSigningCert,
    /// The report does not carry a valid signature.
    InvalidReport,
    /// The quote status of the report is not acceptable.
    InvalidQuoteStatus,
    /// The report cannot be read.
    BadIASReport,
    /// The report is too old.
    OutdatedIASReport,
    /// The quote body has an unknown layout.
    UnknownQuoteBodyFormat,
    /// The evidence is bound to another registration payload.
    InvalidUserDataHash,
    /// No evidence was given, and the fleet asks for some.
    NoneAttestationDisabled,
    /// The evidence is of a kind that is not supported.
    UnsupportedAttestationType,
    /// The DCAP quote failed verification, for the reason given.
    InvalidDCAPQuote(DcapError),
}

/// Every way in which an operation of the fleet can be rejected.
#[derive(Clone, Copy, Debug, PartialEq, Eq)]
pub enum Error {
    BoundedVecError,
    NotBond,
    /// The identity names no registered worker.
    NonTeeWorker,
    PflixRejected,
    InvalidIASSigningCert,
    InvalidReport,
    InvalidQuoteStatus,
    BadIASReport,
    OutdatedIASReport,
    UnknownQuoteBodyFormat,
    InvalidPflixInfoHash,
    NoneAttestationDisabled,
    UnsupportedAttestationType,
    InvalidDCAPQuote,
    InvalidCertificate,
    CodecError,
    TCBInfoExpired,
    KeyLengthIsInvalid,
    PublicKeyIsInvalid,
    RsaSignatureIsInvalid,
    DerEncodingError,
    UnsupportedDCAPQuoteVersion,
    UnsupportedDCAPAttestationKeyType,
    UnsupportedQuoteAuthData,
    UnsupportedDCAPPckCertFormat,
    LeafCertificateParsingError,
    CertificateChainIsInvalid,
    CertificateChainIsTooShort,
    IntelExtensionCertificateDecodingError,
    IntelExtensionAmbiguity,
    CpuSvnLengthMismatch,
    CpuSvnDecodingError,
    PceSvnDecodingError,
    PceSvnLengthMismatch,
    FmspcLengthMismatch,
    FmspcDecodingError,
    FmspcMismatch,
    QEReportHashMismatch,
    IsvEnclaveReportSignatureIsInvalid,
    DerDecodingError,
    OidIsMissing,
    WrongTeeType,
    /// A message came from an origin that is not a worker.
    InvalidSender,
    /// The identity that signed names no registered worker.
    InvalidWorkerPubKey,
    MalformedSignature,
    /// The signature is not 64 bytes long.
    InvalidSignatureLength,
    /// The signature does not verify.
    InvalidSignature,
    /// The worker to hold the master key is not registered.
    WorkerNotFound,
    /// A key was submitted while no holder is designated.
    MasterKeyLaunchRequire,
    /// A key was submitted by a worker other than the designated holder.
    InvalidMasterKeyFirstHolder,
    /// No holder is designated.
    MasterKeyFirstHolderNotFound,
    MasterKeyAlreadyLaunched,
    MasterKeyLaunching,
    /// The submitted key differs from the one on record.
    MasterKeyMismatch,
    MasterKeyUninitialized,
    /// The request for the master key is not yet valid, or no longer.
    InvalidMasterKeyApplySigningTime,
    /// The identity is already registered.
    PflixAlreadyExists,
    /// The binary is already on the allow-list.
    PflixBinAlreadyExists,
    /// The binary is not on the allow-list.
    PflixBinNotFound,
    /// The designated holder of the master key cannot leave the fleet.
    CannotExitMasterKeyHolder,
    /// The payload names no endpoint, or an empty one.
    EmptyEndpoint,
    /// The endpoint payload is not yet valid, or no longer.
    InvalidEndpointSigningTime,
    PayloadError,
    LastWorker,
}

/// How an operation ends when it is rejected.
#[derive(Clone, Copy, Debug, PartialEq, Eq)]
pub enum DispatchError {
    /// The caller is not of the origin that the operation asks for.
    BadOrigin,
    /// The operation itself turned the request down.
    Module(Error),
}

/// The error under which a failure of the DCAP verifier is reported.
pub open spec fn dcap_error(err: DcapError) -> Error {
    match err {
        DcapError::InvalidCertificate => Error::InvalidCertificate,
        DcapError::InvalidSignature => Error::InvalidSignature,
        DcapError::CodecError => Error::CodecError,
        DcapError::TCBInfoExpired => Error::TCBInfoExpired,
        DcapError::KeyLengthIsInvalid => Error::KeyLengthIsInvalid,
        DcapError::PublicKeyIsInvalid => Error::PublicKeyIsInvalid,
        DcapError::RsaSignatureIsInvalid => Error::RsaSignatureIsInvalid,
        DcapError::DerEncodingError => Error::DerEncodingError,
        DcapError::UnsupportedDCAPQuoteVersion => Error::UnsupportedDCAPQuoteVersion,
        DcapError::UnsupportedDCAPAttestationKeyType => Error::UnsupportedDCAPAttestationKeyType,
        DcapError::UnsupportedQuoteAuthData => Error::UnsupportedQuoteAuthData,
        DcapError::UnsupportedDCAPPckCertFormat => Error::UnsupportedDCAPPckCertFormat,
        DcapError::LeafCertificateParsingError => Error::LeafCertificateParsingError,
        DcapError::CertificateChainIsInvalid => Error::CertificateChainIsInvalid,
        DcapError::CertificateChainIsTooShort => Error::CertificateChainIsTooShort,
        DcapError::IntelExtensionCertificateDecodingError => Error::IntelExtensionCertificateDecodingError,
        DcapError::IntelExtensionAmbiguity => Error::IntelExtensionAmbiguity,
        DcapError::CpuSvnLengthMismatch => Error::CpuSvnLengthMismatch,
        DcapError::CpuSvnDecodingError => Error::CpuSvnDecodingError,
        DcapError::PceSvnDecodingError => Error::PceSvnDecodingError,
        DcapError::PceSvnLengthMismatch => Error::PceSvnLengthMismatch,
        DcapError::FmspcLengthMismatch => Error::FmspcLengthMismatch,
        DcapError::FmspcDecodingError => Error::FmspcDecodingError,
        DcapError::FmspcMismatch => Error::FmspcMismatch,
        DcapError::QEReportHashMismatch => Error::QEReportHashMismatch,
        DcapError::IsvEnclaveReportSignatureIsInvalid => Error::IsvEnclaveReportSignatureIsInvalid,
        DcapError::DerDecodingError => Error::DerDecodingError,
        DcapError::OidIsMissing => Error::OidIsMissing,
    }
}

/// The error under which a rejection of attestation evidence is reported.
pub open spec fn attestation_error(err: AttestationError) -> Error {
    match err {
        AttestationError::PflixRejected => Error::PflixRejected,
        AttestationError::InvalidIASSigningCert => Error::InvalidIASSigningCert,
        AttestationError::InvalidReport => Error::InvalidReport,
        AttestationError::InvalidQuoteStatus => Error::InvalidQuoteStatus,
        AttestationError::BadIASReport => Error::BadIASReport,
        AttestationError::OutdatedIASReport => Error::OutdatedIASReport,
        AttestationError::UnknownQuoteBodyFormat => Error::UnknownQuoteBodyFormat,
        AttestationError::InvalidUserDataHash => Error::InvalidPflixInfoHash,
        AttestationError::NoneAttestationDisabled => Error::NoneAttestationDisabled,
        AttestationError::UnsupportedAttestationType => Error::UnsupportedAttestationType,
        AttestationError::InvalidDCAPQuote(inner) => dcap_error(inner),
    }
}

impl From<AttestationError> for Error {
    fn from(err: AttestationError) -> (error: Error) {
        match err {
            AttestationError::PflixRejected => Self::PflixRejected,
            AttestationError::InvalidIASSigningCert => Self::InvalidIASSigningCert,
            AttestationError::InvalidReport => Self::InvalidReport,
            AttestationError::InvalidQuoteStatus => Self::InvalidQuoteStatus,
            AttestationError::BadIASReport => Self::BadIASReport,
            AttestationError::OutdatedIASReport => Self::OutdatedIASReport,
            AttestationError::UnknownQuoteBodyFormat => Self::UnknownQuoteBodyFormat,
            AttestationError::InvalidUserDataHash => Self::InvalidPflixInfoHash,
            AttestationError::NoneAttestationDisabled => Self::NoneAttestationDisabled,
            AttestationError::UnsupportedAttestationType => Self::UnsupportedAttestationType,
            AttestationError::InvalidDCAPQuote(inner) => match inner {
                DcapError::InvalidCertificate => Self::InvalidCertificate,
                DcapError::InvalidSignature => Self::InvalidSignature,
                DcapError::CodecError => Self::CodecError,
                DcapError::TCBInfoExpired => Self::TCBInfoExpired,
                DcapError::KeyLengthIsInvalid => Self::KeyLengthIsInvalid,
                DcapError::PublicKeyIsInvalid => Self::PublicKeyIsInvalid,
                DcapError::RsaSignatureIsInvalid => Self::RsaSignatureIsInvalid,
                DcapError::DerEncodingError => Self::DerEncodingError,
                DcapError::UnsupportedDCAPQuoteVersion => Self::UnsupportedDCAPQuoteVersion,
                DcapError::UnsupportedDCAPAttestationKeyType => Self::UnsupportedDCAPAttestationKeyType,
                DcapError::UnsupportedQuoteAuthData => Self::UnsupportedQuoteAuthData,
                DcapError::UnsupportedDCAPPckCertFormat => Self::UnsupportedDCAPPckCertFormat,
                DcapError::LeafCertificateParsingError => Self::LeafCertificateParsingError,
                DcapError::CertificateChainIsInvalid => Self::CertificateChainIsInvalid,
                DcapError::CertificateChainIsTooShort => Self::CertificateChainIsTooShort,
                DcapError::IntelExtensionCertificateDecodingError => Self::IntelExtensionCertificateDecodingError,
                DcapError::IntelExtensionAmbiguity => Self::IntelExtensionAmbiguity,
                DcapError::CpuSvnLengthMismatch => Self::CpuSvnLengthMismatch,
                DcapError::CpuSvnDecodingError => Self::CpuSvnDecodingError,
                DcapError::PceSvnDecodingError => Self::PceSvnDecodingError,
                DcapError::PceSvnLengthMismatch => Self::PceSvnLengthMismatch,
                DcapError::FmspcLengthMismatch => Self::FmspcLengthMismatch,
                DcapError::FmspcDecodingError => Self::FmspcDecodingError,
                DcapError::FmspcMismatch => Self::FmspcMismatch,
                DcapError::QEReportHashMismatch => Self::QEReportHashMismatch,
                DcapError::IsvEnclaveReportSignatureIsInvalid => Self::IsvEnclaveReportSignatureIsInvalid,
                DcapError::DerDecodingError => Self::DerDecodingError,
                DcapError::OidIsMissing => Self::OidIsMissing,
            },
        }
    }
}

impl FromSpecImpl<AttestationError> for Error {
    open spec fn obeys_from_spec() -> bool {
        true
    }

    open spec fn from_spec(err: AttestationError) -> Error {
        attestation_error(err)
    }
}

/// Two different rejections of evidence are never reported under the same
/// error: the cause of a rejection can be read off the error.
pub proof fn lemma_attestation_error_is_injective(a: AttestationError, b: AttestationError)
    requires
        attestation_error(a) == attestation_error(b),
    ensures
        a == b,
{
}

/// A rejection of evidence is never reported as an error of the registry:
/// neither as an identity that is registered already, nor as one that is
/// not registered.
pub proof fn lemma_attestation_error_is_about_evidence(err: AttestationError)
    ensures
        attestation_error(err) != Error::PflixAlreadyExists,
        attestation_error(err) != Error::NonTeeWorker,
{
}

} // verus!
