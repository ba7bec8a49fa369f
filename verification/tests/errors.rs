use tee_worker::{AttestationError, DcapError, Error};

#[test]
fn verifier_rejections_keep_their_names() {
    assert_eq!(Error::from(AttestationError::PflixRejected), Error::PflixRejected);
    assert_eq!(Error::from(AttestationError::InvalidIASSigningCert), Error::InvalidIASSigningCert);
    assert_eq!(Error::from(AttestationError::InvalidReport), Error::InvalidReport);
    assert_eq!(Error::from(AttestationError::InvalidQuoteStatus), Error::InvalidQuoteStatus);
    assert_eq!(Error::from(AttestationError::BadIASReport), Error::BadIASReport);
    assert_eq!(Error::from(AttestationError::OutdatedIASReport), Error::OutdatedIASReport);
    assert_eq!(Error::from(AttestationError::UnknownQuoteBodyFormat), Error::UnknownQuoteBodyFormat);
    assert_eq!(Error::from(AttestationError::NoneAttestationDisabled), Error::NoneAttestationDisabled);
    assert_eq!(
        Error::from(AttestationError::UnsupportedAttestationType),
        Error::UnsupportedAttestationType
    );
}

#[test]
fn a_payload_mismatch_is_reported_as_an_invalid_info_hash() {
    assert_eq!(Error::from(AttestationError::InvalidUserDataHash), Error::InvalidPflixInfoHash);
}

#[test]
fn dcap_rejections_are_reported_by_their_cause() {
    let table = [
        (DcapError::InvalidCertificate, Error::InvalidCertificate),
        (DcapError::InvalidSignature, Error::InvalidSignature),
        (DcapError::CodecError, Error::CodecError),
        (DcapError::TCBInfoExpired, Error::TCBInfoExpired),
        (DcapError::KeyLengthIsInvalid, Error::KeyLengthIsInvalid),
        (DcapError::PublicKeyIsInvalid, Error::PublicKeyIsInvalid),
        (DcapError::RsaSignatureIsInvalid, Error::RsaSignatureIsInvalid),
        (DcapError::DerEncodingError, Error::DerEncodingError),
        (DcapError::UnsupportedDCAPQuoteVersion, Error::UnsupportedDCAPQuoteVersion),
        (DcapError::UnsupportedDCAPAttestationKeyType, Error::UnsupportedDCAPAttestationKeyType),
        (DcapError::UnsupportedQuoteAuthData, Error::UnsupportedQuoteAuthData),
        (DcapError::UnsupportedDCAPPckCertFormat, Error::UnsupportedDCAPPckCertFormat),
        (DcapError::LeafCertificateParsingError, Error::LeafCertificateParsingError),
        (DcapError::CertificateChainIsInvalid, Error::CertificateChainIsInvalid),
        (DcapError::CertificateChainIsTooShort, Error::CertificateChainIsTooShort),
        (
            DcapError::IntelExtensionCertificateDecodingError,
            Error::IntelExtensionCertificateDecodingError,
        ),
        (DcapError::IntelExtensionAmbiguity, Error::IntelExtensionAmbiguity),
        (DcapError::CpuSvnLengthMismatch, Error::CpuSvnLengthMismatch),
        (DcapError::CpuSvnDecodingError, Error::CpuSvnDecodingError),
        (DcapError::PceSvnDecodingError, Error::PceSvnDecodingError),
        (DcapError::PceSvnLengthMismatch, Error::PceSvnLengthMismatch),
        (DcapError::FmspcLengthMismatch, Error::FmspcLengthMismatch),
        (DcapError::FmspcDecodingError, Error::FmspcDecodingError),
        (DcapError::FmspcMismatch, Error::FmspcMismatch),
        (DcapError::QEReportHashMismatch, Error::QEReportHashMismatch),
        (DcapError::IsvEnclaveReportSignatureIsInvalid, Error::IsvEnclaveReportSignatureIsInvalid),
        (DcapError::DerDecodingError, Error::DerDecodingError),
        (DcapError::OidIsMissing, Error::OidIsMissing),
    ];
    for (cause, expected) in table {
        assert_eq!(Error::from(AttestationError::InvalidDCAPQuote(cause)), expected);
    }
}

#[test]
fn no_two_rejections_share_an_error() {
    let all = [
        AttestationError::PflixRejected,
        AttestationError::InvalidIASSigningCert,
        AttestationError::InvalidReport,
        AttestationError::InvalidQuoteStatus,
        AttestationError::BadIASReport,
        AttestationError::OutdatedIASReport,
        AttestationError::UnknownQuoteBodyFormat,
        AttestationError::InvalidUserDataHash,
        AttestationError::NoneAttestationDisabled,
        AttestationError::UnsupportedAttestationType,
        AttestationError::InvalidDCAPQuote(DcapError::InvalidCertificate),
        AttestationError::InvalidDCAPQuote(DcapError::InvalidSignature),
        AttestationError::InvalidDCAPQuote(DcapError::OidIsMissing),
    ];
    for (i, a) in all.iter().enumerate() {
        for (j, b) in all.iter().enumerate() {
            assert_eq!(i == j, Error::from(*a) == Error::from(*b));
        }
    }
}
