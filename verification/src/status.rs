use vstd::prelude::*;

verus! {

/// What a single probe of one site produced: a concrete HTTP status code,
/// or a transport-level failure (DNS, connection, TLS, protocol fault)
/// that yielded no status at all.
#[derive(Clone, Copy, Debug, PartialEq, Eq)]
pub enum ProbeOutcome {
    Status(u16),
    TransportFailure,
}

/// The semantic existence verdict for one site.
///
/// `Other` carries the raw status code for caller-side interpretation:
/// many sites answer with codes besides 200/404 (redirects, rate limits)
/// that neither confirm nor deny existence. `Unreachable` is the verdict
/// recorded for a site whose probe failed at the transport level; it keeps
/// one dead site from blanking out the results of every other site.
#[derive(Clone, Copy, Debug, PartialEq, Eq)]
pub enum CheckStatus {
    Available,
    NotFound,
    Other(u16),
    Unreachable,
}

/// Classification of an HTTP status code: 200 means the account page exists,
/// 404 means it does not, and every other code is ambiguous.
pub open spec fn spec_classify(code: u16) -> CheckStatus {
    if code == 200 {
        CheckStatus::Available
    } else if code == 404 {
        CheckStatus::NotFound
    } else {
        CheckStatus::Other(code)
    }
}

/// Classification of a whole probe outcome: a status code is classified by
/// `spec_classify`; a transport failure becomes `Unreachable`.
pub open spec fn spec_classify_outcome(outcome: ProbeOutcome) -> CheckStatus {
    match outcome {
        ProbeOutcome::Status(code) => spec_classify(code),
        ProbeOutcome::TransportFailure => CheckStatus::Unreachable,
    }
}

/// A site's verdict depends on its own probe outcome alone: whatever
/// happened to every other site — a transport failure among them — two
/// checks whose outcomes agree at position `j` give site `j` the same
/// verdict.
pub proof fn lemma_verdict_depends_on_own_outcome_alone(
    a: Seq<ProbeOutcome>,
    b: Seq<ProbeOutcome>,
    j: int,
)
    requires
        0 <= j < a.len(),
        0 <= j < b.len(),
        a[j] == b[j],
    ensures
        spec_classify_outcome(a[j]) == spec_classify_outcome(b[j]),
{
}

impl CheckStatus {
    /// Map an HTTP status code to its existence verdict.
    pub fn from_code(code: u16) -> (r: CheckStatus)
        ensures
            r == spec_classify(code),
    {
        if code == 200 {
            CheckStatus::Available
        } else if code == 404 {
            CheckStatus::NotFound
        } else {
            CheckStatus::Other(code)
        }
    }

    /// Map a probe outcome to its existence verdict.
    pub fn from_outcome(outcome: ProbeOutcome) -> (r: CheckStatus)
        ensures
            r == spec_classify_outcome(outcome),
    {
        match outcome {
            ProbeOutcome::Status(code) => CheckStatus::from_code(code),
            ProbeOutcome::TransportFailure => CheckStatus::Unreachable,
        }
    }
}

} // verus!
