//! The appraisal of a worker's attestation evidence: whether it earns the
//! worker trust, and how much.
//!
//! Quotes and certificate chains are verified outside this crate. The
//! appraisal starts from what that verifier found, ties the evidence to the
//! registration payload, and applies the fleet's policy.

use crate::error::AttestationError;
use crate::keys::H256;
use crate::types::AttestationProvider;
use vstd::prelude::*;

verus! {

/// The confidence granted to a worker that was admitted without evidence.
pub const UNATTESTED_CONFIDENCE: u8 = 128;

/// What the verifier read in a piece of evidence that it accepted.
#[derive(Clone, Copy, Debug, PartialEq, Eq)]
pub struct Quote {
    /// The measurement of the binary that the worker runs.
    pub measurement: H256,
    /// The digest that the worker put into the evidence as user data.
    pub user_data_hash: H256,
    /// How strong the verifier found the evidence to be.
    pub confidence_level: u8,
}

/// A piece of evidence, as the verifier left it.
#[derive(Clone, Copy, Debug, PartialEq, Eq)]
pub enum Evidence {
    /// The verifier turned the evidence down.
    Refused(AttestationError),
    /// The verifier accepted the evidence, and read this in it.
    Accepted(Quote),
}

/// Evidence in the legacy form, which knows EPID quotes only.
#[derive(Clone, Copy, Debug, PartialEq, Eq)]
pub enum Attestation {
    SgxIas(Evidence),
}

/// Evidence in the current form.
#[derive(Clone, Copy, Debug, PartialEq, Eq)]
pub enum AttestationReport {
    SgxIas(Evidence),
    SgxDcap(Evidence),
}

/// The fleet's switches for the appraisal of evidence.
#[derive(Clone, Copy, Debug, PartialEq, Eq)]
pub struct AttestationPolicy {
    /// Whether the measured binary must be on the allow-list.
    pub verify_pflix: bool,
    /// Whether a worker may be admitted without evidence.
    pub none_attestation_enabled: bool,
}

/// The trust that a worker earned.
#[derive(Clone, Copy, Debug, PartialEq, Eq)]
pub struct TrustResult {
    pub provider: Option<AttestationProvider>,
    pub confidence_level: u8,
}

impl AttestationReport {
    /// Who vouches for evidence of this form.
    pub open spec fn provider(self) -> AttestationProvider {
        match self {
            AttestationReport::SgxIas(_) => AttestationProvider::Ias,
            AttestationReport::SgxDcap(_) => AttestationProvider::Dcap,
        }
    }

    /// The evidence, as the verifier left it.
    pub open spec fn evidence(self) -> Evidence {
        match self {
            AttestationReport::SgxIas(e) => e,
            AttestationReport::SgxDcap(e) => e,
        }
    }
}

impl Attestation {
    /// The same evidence in the current form.
    pub open spec fn report(self) -> AttestationReport {
        match self {
            Attestation::SgxIas(e) => AttestationReport::SgxIas(e),
        }
    }

    /// The same evidence in the current form.
    pub fn into_report(self) -> (report: AttestationReport)
        ensures
            report == self.report(),
    {
        match self {
            Attestation::SgxIas(e) => AttestationReport::SgxIas(e),
        }
    }
}

/// Whether `binary` is on the allow-list.
pub open spec fn allowed(allowlist: Seq<H256>, binary: H256) -> bool {
    allowlist.contains(binary)
}

/// What the evidence earns. Evidence that the verifier refused is refused for
/// the verifier's reason. Evidence that it accepted must measure a binary on
/// the allow-list, where the policy asks for that, and must carry the digest
/// of the registration payload. Without evidence, the policy decides.
pub open spec fn appraisal(
    attestation: Option<AttestationReport>,
    binding_hash: H256,
    policy: AttestationPolicy,
    allowlist: Seq<H256>,
) -> Result<TrustResult, AttestationError> {
    match attestation {
        None => if policy.none_attestation_enabled {
            Ok(TrustResult { provider: None, confidence_level: UNATTESTED_CONFIDENCE })
        } else {
            Err(AttestationError::NoneAttestationDisabled)
        },
        Some(report) => match report.evidence() {
            Evidence::Refused(reason) => Err(reason),
            Evidence::Accepted(quote) => if policy.verify_pflix && !allowed(
                allowlist,
                quote.measurement,
            ) {
                Err(AttestationError::PflixRejected)
            } else if quote.user_data_hash != binding_hash {
                Err(AttestationError::InvalidUserDataHash)
            } else {
                Ok(
                    TrustResult {
                        provider: Some(report.provider()),
                        confidence_level: quote.confidence_level,
                    },
                )
            },
        },
    }
}

/// Whether `binary` is on the allow-list.
pub fn is_allowed(allowlist: &Vec<H256>, binary: &H256) -> (found: bool)
    ensures
        found == allowed(allowlist@, *binary),
{
    let mut i: usize = 0;
    while i < allowlist.len()
        invariant
            i <= allowlist@.len(),
            forall|j: int| 0 <= j < i ==> allowlist@[j] != *binary,
        decreases allowlist@.len() - i,
    {
        if allowlist[i].same(binary) {
            return true;
        }
        i += 1;
    }
    false
}

/// Decides whether the evidence earns the worker trust, and how much.
pub fn validate(
    attestation: Option<AttestationReport>,
    binding_hash: &H256,
    policy: AttestationPolicy,
    allowlist: &Vec<H256>,
) -> (verdict: Result<TrustResult, AttestationError>)
    ensures
        verdict == appraisal(attestation, *binding_hash, policy, allowlist@),
{
    match attestation {
        None => {
            if policy.none_attestation_enabled {
                Ok(TrustResult { provider: None, confidence_level: UNATTESTED_CONFIDENCE })
            } else {
                Err(AttestationError::NoneAttestationDisabled)
            }
        },
        Some(report) => {
            let (provider, evidence) = match report {
                AttestationReport::SgxIas(e) => (AttestationProvider::Ias, e),
                AttestationReport::SgxDcap(e) => (AttestationProvider::Dcap, e),
            };
            match evidence {
                Evidence::Refused(reason) => Err(reason),
                Evidence::Accepted(quote) => {
                    if policy.verify_pflix && !is_allowed(allowlist, &quote.measurement) {
                        Err(AttestationError::PflixRejected)
                    } else if !quote.user_data_hash.same(binding_hash) {
                        Err(AttestationError::InvalidUserDataHash)
                    } else {
                        Ok(
                            TrustResult {
                                provider: Some(provider),
                                confidence_level: quote.confidence_level,
                            },
                        )
                    }
                },
            }
        },
    }
}

/// Evidence earns trust exactly if the verifier did not refuse
/// the evidence, the measured binary is on the allow-list or the policy does
/// not ask, and the evidence carries the digest of the payload; or, where
/// there is no evidence, if the policy admits that.
pub proof fn lemma_appraisal_passes_iff(
    attestation: Option<AttestationReport>,
    binding_hash: H256,
    policy: AttestationPolicy,
    allowlist: Seq<H256>,
)
    ensures
        appraisal(attestation, binding_hash, policy, allowlist).is_ok() <==> match attestation {
            None => policy.none_attestation_enabled,
            Some(report) => match report.evidence() {
                Evidence::Refused(_) => false,
                Evidence::Accepted(quote) => (!policy.verify_pflix || allowlist.contains(
                    quote.measurement,
                )) && quote.user_data_hash == binding_hash,
            },
        },
{
}

} // verus!
