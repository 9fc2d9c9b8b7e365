//! Classification of a probe's outcome into an availability status.
//!
//! The host's smart-card service is consulted in two steps: establish a
//! user-scoped session, then enumerate the attached readers. Either step can
//! fail, and a success can find no reader. [`ProbeOutcome`] records what the
//! two steps observed; [`classify`] maps every outcome to its exact
//! [`NfcStatus`], so the caller that performs the platform calls has no
//! decision left to make.

use vstd::prelude::*;
use vstd::string::StringExecFns;
use crate::status::{
    NfcStatus, decimal_string, enumeration_failure_message, found_message, no_readers_message,
    session_failure_message,
};

verus! {

/// What the two service calls observed: a session failure, an enumeration
/// failure, or the list of attached reader names.
pub enum ProbeOutcome {
    /// No session could be established; the field holds the service's
    /// description of the failure.
    SessionFailed(String),
    /// A session was established but the readers could not be listed; the
    /// field holds the service's description of the failure.
    EnumerationFailed(String),
    /// A session was established and enumeration succeeded, finding these
    /// readers (possibly none).
    Readers(Vec<String>),
}

/// Availability: both service calls succeeded and at least one reader was
/// found.
pub open spec fn spec_available(o: ProbeOutcome) -> bool {
    match o {
        ProbeOutcome::Readers(names) => names@.len() >= 1,
        _ => false,
    }
}

/// The exact message for each outcome.
pub open spec fn spec_message(o: ProbeOutcome) -> Seq<char> {
    match o {
        ProbeOutcome::SessionFailed(detail) => session_failure_message(detail@),
        ProbeOutcome::EnumerationFailed(detail) => enumeration_failure_message(detail@),
        ProbeOutcome::Readers(names) => if names@.len() == 0 {
            no_readers_message()
        } else {
            found_message(names@.len())
        },
    }
}

/// Maps an observed outcome to its availability status.
pub fn classify(outcome: ProbeOutcome) -> (r: NfcStatus)
    ensures
        r.available == spec_available(outcome),
        r.message@ == spec_message(outcome),
        r.wf(),
{
    match outcome {
        ProbeOutcome::SessionFailed(detail) => {
            let mut m = String::from_str("Failed to establish NFC context: ");
            m.append(detail.as_str());
            proof {
                assert(m@ == session_failure_message(detail@));
            }
            NfcStatus { available: false, message: m }
        },
        ProbeOutcome::EnumerationFailed(detail) => {
            let mut m = String::from_str("Failed to list readers: ");
            m.append(detail.as_str());
            proof {
                assert(m@ == enumeration_failure_message(detail@));
            }
            NfcStatus { available: false, message: m }
        },
        ProbeOutcome::Readers(names) => {
            if names.len() == 0 {
                NfcStatus { available: false, message: String::from_str("No NFC readers detected") }
            } else {
                let count = decimal_string(names.len());
                let mut m = String::from_str("Found ");
                m.append(count.as_str());
                m.append(" NFC reader(s)");
                proof {
                    assert(m@ == found_message(names@.len()));
                }
                NfcStatus { available: true, message: m }
            }
        },
    }
}

/// Two outcomes agree when they report the same observation: the same step
/// failed with the same description, or enumeration found the same number of
/// readers.
pub open spec fn outcomes_agree(o1: ProbeOutcome, o2: ProbeOutcome) -> bool {
    match (o1, o2) {
        (ProbeOutcome::SessionFailed(d1), ProbeOutcome::SessionFailed(d2)) => d1@ == d2@,
        (ProbeOutcome::EnumerationFailed(d1), ProbeOutcome::EnumerationFailed(d2)) => d1@ == d2@,
        (ProbeOutcome::Readers(n1), ProbeOutcome::Readers(n2)) => n1@.len() == n2@.len(),
        _ => false,
    }
}

/// The probe is idempotent: under an unchanged service and hardware state,
/// that is when two probes observe agreeing outcomes, they report equal
/// results.
pub proof fn lemma_probe_idempotent(o1: ProbeOutcome, o2: ProbeOutcome)
    requires
        outcomes_agree(o1, o2),
    ensures
        spec_available(o1) == spec_available(o2),
        spec_message(o1) == spec_message(o2),
{
}

} // verus!
