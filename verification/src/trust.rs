//! The trust-state machine.
//!
//! For the publisher key of a verified manifest this module decides which of
//! the four trust states applies, which user action the chrome must demand, and
//! what is to be persisted. It writes nothing: persistence is described by a
//! [`PersistenceIntent`].
//!
//! The rules:
//!
//! - a key with nothing retained is at first contact. It is observed, so that a
//!   later change is noticed, but never pinned without an affirmative decision;
//! - a retained key that matches the presented one stays in the state its
//!   provenance implies;
//! - a retained key that differs from the presented one is a mismatch, and is
//!   never replaced unless the user confirms the new key.
use crate::protocol::{DiagnosticCode, PublisherPubkey};
use vstd::prelude::*;

verus! {

/// The four publisher trust states.
#[derive(Clone, Copy, Debug, PartialEq, Eq, Structural)]
pub enum TrustState {
    /// Nothing but, at most, an automatic observation is retained.
    FirstContact,
    /// The user pinned the key, without verifying it externally.
    TofuPinned,
    /// The user confirmed the key against an out-of-band identity phrase.
    ExternallyVerified,
    /// Another key than the retained one is presented.
    ChangedMismatch,
}

/// How a retained record was established.
#[derive(Clone, Copy, Debug, PartialEq, Eq, Structural)]
pub enum RetainedProvenance {
    /// Recorded automatically at first contact.
    Observed,
    /// The user affirmed the pinning prompt.
    Pinned,
    /// The user verified the key against its identity phrase.
    ExternallyVerified,
}

/// What is retained for a site.
#[derive(Clone, Copy, Debug, PartialEq, Eq)]
pub struct RetainedIdentity {
    /// The retained publisher key.
    pub pubkey: PublisherPubkey,
    /// How the record was established.
    pub provenance: RetainedProvenance,
}

/// The user's decision, taken from an affirmative control.
#[derive(Clone, Copy, Debug, PartialEq, Eq, Structural)]
pub enum UserDecision {
    /// No decision.
    NoDecision,
    /// Pin the presented identity.
    PinFirstContact,
    /// The presented key matches its out-of-band identity phrase.
    ConfirmPip,
    /// On a mismatch: the new key is legitimate and replaces the retained one.
    ConfirmNewIdentity,
    /// On a mismatch: abandon the navigation and keep the retained identity.
    RejectNewIdentity,
}

impl Default for UserDecision {
    fn default() -> (decision: UserDecision)
        ensures
            decision == UserDecision::NoDecision,
    {
        UserDecision::NoDecision
    }
}

/// The user action the chrome must demand.
#[derive(Clone, Copy, Debug, PartialEq, Eq, Structural)]
pub enum RequiredAction {
    /// Nothing.
    NoAction,
    /// The pinning prompt.
    PinPrompt,
    /// A prominent identity-mismatch warning.
    MismatchWarning,
}

/// What is to be persisted.
#[derive(Clone, Copy, Debug, PartialEq, Eq)]
pub enum PersistenceIntent {
    /// Nothing.
    Nothing,
    /// The automatic observation of a key; never overwrites a record.
    RecordObservation {
        /// The observed key.
        pubkey: PublisherPubkey,
    },
    /// A pin.
    PinIdentity {
        /// The pinned key.
        pubkey: PublisherPubkey,
    },
    /// An external verification.
    MarkExternallyVerified {
        /// The verified key.
        pubkey: PublisherPubkey,
    },
    /// A user-confirmed replacement of the retained key.
    ReplaceIdentity {
        /// The new key.
        new_pubkey: PublisherPubkey,
        /// The replaced key, which is kept.
        replaced: PublisherPubkey,
        /// Whether the user verified the new key externally too.
        externally_verified: bool,
    },
}

/// The outcome of resolving trust.
#[derive(Clone, Copy, Debug, PartialEq, Eq)]
pub struct Resolution {
    /// The trust state.
    pub state: TrustState,
    /// The action the chrome must demand.
    pub action: RequiredAction,
    /// What is to be persisted.
    pub intent: PersistenceIntent,
}

/// Another key than `presented` is retained.
pub open spec fn mismatched(presented: PublisherPubkey, retained: Option<RetainedIdentity>) -> bool {
    retained matches Some(r) && r.pubkey != presented
}

/// Nothing but, at most, an observation is retained, and it is of `presented`.
pub open spec fn unconfirmed(presented: PublisherPubkey, retained: Option<RetainedIdentity>) -> bool {
    match retained {
        None => true,
        Some(r) => r.pubkey == presented && r.provenance == RetainedProvenance::Observed,
    }
}

/// The trust state of `presented`.
pub open spec fn resolved_state(
    presented: PublisherPubkey,
    retained: Option<RetainedIdentity>,
    decision: UserDecision,
) -> TrustState {
    if decision == UserDecision::ConfirmPip {
        TrustState::ExternallyVerified
    } else if mismatched(presented, retained) {
        if decision == UserDecision::ConfirmNewIdentity {
            TrustState::FirstContact
        } else {
            TrustState::ChangedMismatch
        }
    } else if unconfirmed(presented, retained) {
        if decision == UserDecision::PinFirstContact {
            TrustState::TofuPinned
        } else {
            TrustState::FirstContact
        }
    } else if retained->0.provenance == RetainedProvenance::Pinned {
        TrustState::TofuPinned
    } else {
        TrustState::ExternallyVerified
    }
}

/// The action the chrome must demand: a prompt or a warning stays up until the
/// user has answered it.
pub open spec fn resolved_action(
    presented: PublisherPubkey,
    retained: Option<RetainedIdentity>,
    decision: UserDecision,
) -> RequiredAction {
    let answered = if mismatched(presented, retained) {
        decision == UserDecision::ConfirmNewIdentity || decision == UserDecision::RejectNewIdentity
    } else {
        false
    };
    match resolved_state(presented, retained, decision) {
        TrustState::FirstContact if !answered => RequiredAction::PinPrompt,
        TrustState::ChangedMismatch if !answered => RequiredAction::MismatchWarning,
        _ => RequiredAction::NoAction,
    }
}

/// What is to be persisted for `presented`.
pub open spec fn resolved_intent(
    presented: PublisherPubkey,
    retained: Option<RetainedIdentity>,
    decision: UserDecision,
) -> PersistenceIntent {
    if mismatched(presented, retained) {
        if decision == UserDecision::ConfirmNewIdentity || decision == UserDecision::ConfirmPip {
            PersistenceIntent::ReplaceIdentity {
                new_pubkey: presented,
                replaced: retained->0.pubkey,
                externally_verified: decision == UserDecision::ConfirmPip,
            }
        } else {
            PersistenceIntent::Nothing
        }
    } else if decision == UserDecision::ConfirmPip && !(retained matches Some(r) && r.provenance
        == RetainedProvenance::ExternallyVerified) {
        PersistenceIntent::MarkExternallyVerified { pubkey: presented }
    } else if decision == UserDecision::PinFirstContact && unconfirmed(presented, retained) {
        PersistenceIntent::PinIdentity { pubkey: presented }
    } else if retained is None {
        PersistenceIntent::RecordObservation { pubkey: presented }
    } else {
        PersistenceIntent::Nothing
    }
}

/// The whole resolution.
pub open spec fn resolution_of(
    presented: PublisherPubkey,
    retained: Option<RetainedIdentity>,
    decision: UserDecision,
) -> Resolution {
    Resolution {
        state: resolved_state(presented, retained, decision),
        action: resolved_action(presented, retained, decision),
        intent: resolved_intent(presented, retained, decision),
    }
}

/// The retained identity behind an optional reference.
pub open spec fn retained_value(retained: Option<&RetainedIdentity>) -> Option<RetainedIdentity> {
    match retained {
        None => None,
        Some(r) => Some(*r),
    }
}

/// Resolve the trust state of a verified manifest's `presented` key, given what
/// is `retained` for the site and the user's `decision`.
pub fn resolve(
    presented: &PublisherPubkey,
    retained: Option<&RetainedIdentity>,
    decision: UserDecision,
) -> (resolution: Resolution)
    ensures
        resolution == resolution_of(*presented, retained_value(retained), decision),
{
    match retained {
        None => first_contact(presented, decision),
        Some(retained) => {
            if retained.pubkey == *presented {
                matched(presented, retained, decision)
            } else {
                mismatch(presented, retained, decision)
            }
        },
    }
}

/// Resolution when nothing is retained.
fn first_contact(presented: &PublisherPubkey, decision: UserDecision) -> (resolution: Resolution)
    ensures
        resolution == resolution_of(*presented, None, decision),
{
    match decision {
        UserDecision::ConfirmPip => Resolution {
            state: TrustState::ExternallyVerified,
            action: RequiredAction::NoAction,
            intent: PersistenceIntent::MarkExternallyVerified { pubkey: *presented },
        },
        UserDecision::PinFirstContact => Resolution {
            state: TrustState::TofuPinned,
            action: RequiredAction::NoAction,
            intent: PersistenceIntent::PinIdentity { pubkey: *presented },
        },
        UserDecision::NoDecision
        | UserDecision::ConfirmNewIdentity
        | UserDecision::RejectNewIdentity => Resolution {
            state: TrustState::FirstContact,
            action: RequiredAction::PinPrompt,
            intent: PersistenceIntent::RecordObservation { pubkey: *presented },
        },
    }
}

/// Resolution when the retained key is the presented one.
fn matched(
    presented: &PublisherPubkey,
    retained: &RetainedIdentity,
    decision: UserDecision,
) -> (resolution: Resolution)
    requires
        retained.pubkey == *presented,
    ensures
        resolution == resolution_of(*presented, Some(*retained), decision),
{
    if decision == UserDecision::ConfirmPip && retained.provenance
        != RetainedProvenance::ExternallyVerified {
        return Resolution {
            state: TrustState::ExternallyVerified,
            action: RequiredAction::NoAction,
            intent: PersistenceIntent::MarkExternallyVerified { pubkey: *presented },
        };
    }
    if decision == UserDecision::PinFirstContact && retained.provenance
        == RetainedProvenance::Observed {
        return Resolution {
            state: TrustState::TofuPinned,
            action: RequiredAction::NoAction,
            intent: PersistenceIntent::PinIdentity { pubkey: *presented },
        };
    }
    match retained.provenance {
        RetainedProvenance::Observed => Resolution {
            state: TrustState::FirstContact,
            action: RequiredAction::PinPrompt,
            intent: PersistenceIntent::Nothing,
        },
        RetainedProvenance::Pinned => Resolution {
            state: TrustState::TofuPinned,
            action: RequiredAction::NoAction,
            intent: PersistenceIntent::Nothing,
        },
        RetainedProvenance::ExternallyVerified => Resolution {
            state: TrustState::ExternallyVerified,
            action: RequiredAction::NoAction,
            intent: PersistenceIntent::Nothing,
        },
    }
}

/// Resolution when another key is retained.
fn mismatch(
    presented: &PublisherPubkey,
    retained: &RetainedIdentity,
    decision: UserDecision,
) -> (resolution: Resolution)
    requires
        retained.pubkey != *presented,
    ensures
        resolution == resolution_of(*presented, Some(*retained), decision),
{
    match decision {
        UserDecision::ConfirmNewIdentity => Resolution {
            state: TrustState::FirstContact,
            action: RequiredAction::NoAction,
            intent: PersistenceIntent::ReplaceIdentity {
                new_pubkey: *presented,
                replaced: retained.pubkey,
                externally_verified: false,
            },
        },
        UserDecision::ConfirmPip => Resolution {
            state: TrustState::ExternallyVerified,
            action: RequiredAction::NoAction,
            intent: PersistenceIntent::ReplaceIdentity {
                new_pubkey: *presented,
                replaced: retained.pubkey,
                externally_verified: true,
            },
        },
        UserDecision::RejectNewIdentity => Resolution {
            state: TrustState::ChangedMismatch,
            action: RequiredAction::NoAction,
            intent: PersistenceIntent::Nothing,
        },
        UserDecision::NoDecision | UserDecision::PinFirstContact => Resolution {
            state: TrustState::ChangedMismatch,
            action: RequiredAction::MismatchWarning,
            intent: PersistenceIntent::Nothing,
        },
    }
}

/// The diagnostic a resolution surfaces. A mismatch always surfaces one. The
/// other states surface one only when something is recorded for them.
pub open spec fn diagnostic_of(resolution: Resolution, decision: UserDecision) -> Option<
    DiagnosticCode,
> {
    match (resolution.state, resolution.intent) {
        (TrustState::ChangedMismatch, _) => Some(
            if decision == UserDecision::RejectNewIdentity {
                DiagnosticCode::ETrustUserRejected
            } else {
                DiagnosticCode::ETrustMismatch
            },
        ),
        (TrustState::FirstContact, PersistenceIntent::RecordObservation { .. })
        | (TrustState::FirstContact, PersistenceIntent::ReplaceIdentity { .. }) => Some(
            DiagnosticCode::ITrustFirstContact,
        ),
        (TrustState::TofuPinned, PersistenceIntent::PinIdentity { .. }) => Some(
            DiagnosticCode::ITrustTofuPinned,
        ),
        (TrustState::ExternallyVerified, PersistenceIntent::MarkExternallyVerified { .. }) => Some(
            DiagnosticCode::ITrustVerified,
        ),
        (
            TrustState::ExternallyVerified,
            PersistenceIntent::ReplaceIdentity { externally_verified, .. },
        ) => if externally_verified {
            Some(DiagnosticCode::ITrustVerified)
        } else {
            None
        },
        _ => None,
    }
}

/// The diagnostic that `resolution`, reached under `decision`, surfaces.
pub fn trust_diagnostic(resolution: &Resolution, decision: UserDecision) -> (code: Option<
    DiagnosticCode,
>)
    ensures
        code == diagnostic_of(*resolution, decision),
{
    match resolution.state {
        TrustState::ChangedMismatch => if decision == UserDecision::RejectNewIdentity {
            Some(DiagnosticCode::ETrustUserRejected)
        } else {
            Some(DiagnosticCode::ETrustMismatch)
        },
        TrustState::FirstContact => match resolution.intent {
            PersistenceIntent::RecordObservation { .. }
            | PersistenceIntent::ReplaceIdentity { .. } => Some(DiagnosticCode::ITrustFirstContact),
            _ => None,
        },
        TrustState::TofuPinned => match resolution.intent {
            PersistenceIntent::PinIdentity { .. } => Some(DiagnosticCode::ITrustTofuPinned),
            _ => None,
        },
        TrustState::ExternallyVerified => match resolution.intent {
            PersistenceIntent::MarkExternallyVerified { .. } => Some(DiagnosticCode::ITrustVerified),
            PersistenceIntent::ReplaceIdentity { externally_verified, .. } => if externally_verified {
                Some(DiagnosticCode::ITrustVerified)
            } else {
                None
            },
            _ => None,
        },
    }
}

/// No passive pin: each intent that changes a record beyond an observation
/// answers exactly the decision that asks for it.
pub proof fn law_persistence_needs_a_decision(
    presented: PublisherPubkey,
    retained: Option<RetainedIdentity>,
    decision: UserDecision,
)
    ensures
        ({
            let intent = resolved_intent(presented, retained, decision);
            &&& intent is PinIdentity ==> decision == UserDecision::PinFirstContact
            &&& intent is MarkExternallyVerified ==> decision == UserDecision::ConfirmPip
            &&& intent is ReplaceIdentity ==> decision == UserDecision::ConfirmPip || decision
                == UserDecision::ConfirmNewIdentity
            &&& decision == UserDecision::NoDecision ==> intent is Nothing || intent is RecordObservation
        }),
{
}

/// A retained identity is never silently replaced: without a confirmation of
/// the new key a mismatch persists nothing and stays a mismatch.
pub proof fn law_mismatch_is_never_silently_replaced(
    presented: PublisherPubkey,
    retained: RetainedIdentity,
    decision: UserDecision,
)
    requires
        retained.pubkey != presented,
        decision != UserDecision::ConfirmPip,
        decision != UserDecision::ConfirmNewIdentity,
    ensures
        resolved_state(presented, Some(retained), decision) == TrustState::ChangedMismatch,
        resolved_intent(presented, Some(retained), decision) == PersistenceIntent::Nothing,
        resolved_action(presented, Some(retained), decision) == (if decision
            == UserDecision::RejectNewIdentity {
            RequiredAction::NoAction
        } else {
            RequiredAction::MismatchWarning
        }),
{
}

/// Every retained record, an automatic observation too, arms mismatch
/// detection: with no decision taken the state is a mismatch exactly when
/// another key is retained.
pub proof fn law_every_record_arms_mismatch_detection(
    presented: PublisherPubkey,
    retained: Option<RetainedIdentity>,
)
    ensures
        resolved_state(presented, retained, UserDecision::NoDecision) == TrustState::ChangedMismatch
            <==> (retained matches Some(r) && r.pubkey != presented),
{
}

/// A matching revisit with no decision changes nothing: the state is the one
/// the provenance implies, nothing is persisted, and no diagnostic surfaces.
pub proof fn law_matching_revisit_is_steady(retained: RetainedIdentity)
    ensures
        ({
            let r = resolution_of(retained.pubkey, Some(retained), UserDecision::NoDecision);
            &&& r.state == (match retained.provenance {
                RetainedProvenance::Observed => TrustState::FirstContact,
                RetainedProvenance::Pinned => TrustState::TofuPinned,
                RetainedProvenance::ExternallyVerified => TrustState::ExternallyVerified,
            })
            &&& r.action == (if retained.provenance == RetainedProvenance::Observed {
                RequiredAction::PinPrompt
            } else {
                RequiredAction::NoAction
            })
            &&& r.intent == PersistenceIntent::Nothing
            &&& diagnostic_of(r, UserDecision::NoDecision) is None
        }),
{
}

/// A resolution surfaces a diagnostic exactly when it is a mismatch or
/// something is to be persisted.
pub proof fn law_diagnostic_marks_mismatches_and_transitions(
    presented: PublisherPubkey,
    retained: Option<RetainedIdentity>,
    decision: UserDecision,
)
    ensures
        ({
            let r = resolution_of(presented, retained, decision);
            diagnostic_of(r, decision) is Some <==> r.state == TrustState::ChangedMismatch
                || r.intent != PersistenceIntent::Nothing
        }),
{
}

/// A confirmed identity phrase settles trust: whatever is retained, of whatever
/// key and provenance, the presented key is externally verified and nothing more
/// is demanded. Another retained key is replaced by it as a verified one; the
/// same key, or none, is marked as verified unless it is already.
pub proof fn law_confirmed_phrase_verifies(
    presented: PublisherPubkey,
    retained: Option<RetainedIdentity>,
    resolution: Resolution,
)
    requires
        match retained {
            Some(r) => call_ensures(
                resolve,
                (&presented, Some(&r), UserDecision::ConfirmPip),
                resolution,
            ),
            None => call_ensures(
                resolve,
                (&presented, None, UserDecision::ConfirmPip),
                resolution,
            ),
        },
    ensures
        resolution.state == TrustState::ExternallyVerified,
        resolution.action == RequiredAction::NoAction,
        match retained {
            Some(r) => if r.pubkey != presented {
                resolution.intent == PersistenceIntent::ReplaceIdentity {
                    new_pubkey: presented,
                    replaced: r.pubkey,
                    externally_verified: true,
                }
            } else if r.provenance == RetainedProvenance::ExternallyVerified {
                resolution.intent == PersistenceIntent::Nothing
            } else {
                resolution.intent == PersistenceIntent::MarkExternallyVerified {
                    pubkey: presented,
                }
            },
            None => resolution.intent == PersistenceIntent::MarkExternallyVerified {
                pubkey: presented,
            },
        },
{
}

/// Against another retained key, of whatever provenance, the user's answer
/// decides: accepting the new key replaces the old one and starts again from
/// first contact without a prompt; rejecting it keeps the old one and takes the
/// warning down; anything short of an answer keeps the old one and the warning.
pub proof fn law_mismatch_is_settled_by_the_answer(
    presented: PublisherPubkey,
    retained: RetainedIdentity,
    decision: UserDecision,
    resolution: Resolution,
)
    requires
        retained.pubkey != presented,
        decision != UserDecision::ConfirmPip,
        call_ensures(resolve, (&presented, Some(&retained), decision), resolution),
    ensures
        decision == UserDecision::ConfirmNewIdentity ==> {
            &&& resolution.state == TrustState::FirstContact
            &&& resolution.action == RequiredAction::NoAction
            &&& resolution.intent == PersistenceIntent::ReplaceIdentity {
                new_pubkey: presented,
                replaced: retained.pubkey,
                externally_verified: false,
            }
        },
        decision != UserDecision::ConfirmNewIdentity ==> {
            &&& resolution.state == TrustState::ChangedMismatch
            &&& resolution.intent == PersistenceIntent::Nothing
            &&& resolution.action == RequiredAction::NoAction <==> decision
                == UserDecision::RejectNewIdentity
            &&& resolution.action == RequiredAction::MismatchWarning <==> decision
                != UserDecision::RejectNewIdentity
        },
{
}

/// A pin is taken up where nothing firmer is retained of the presented key: the
/// state is pinned, the pin is persisted, and nothing more is demanded.
pub proof fn law_pin_is_taken_up(
    presented: PublisherPubkey,
    retained: Option<RetainedIdentity>,
    resolution: Resolution,
)
    requires
        match retained {
            Some(r) => r.pubkey == presented && r.provenance == RetainedProvenance::Observed
                && call_ensures(
                resolve,
                (&presented, Some(&r), UserDecision::PinFirstContact),
                resolution,
            ),
            None => call_ensures(
                resolve,
                (&presented, None, UserDecision::PinFirstContact),
                resolution,
            ),
        },
    ensures
        resolution == (Resolution {
            state: TrustState::TofuPinned,
            action: RequiredAction::NoAction,
            intent: PersistenceIntent::PinIdentity { pubkey: presented },
        }),
{
}

/// With nothing retained, and neither a pin nor a confirmed phrase, the key is at
/// first contact: it is observed and the user is asked to pin it.
pub proof fn law_first_contact_is_observed(
    presented: PublisherPubkey,
    decision: UserDecision,
    resolution: Resolution,
)
    requires
        decision != UserDecision::ConfirmPip,
        decision != UserDecision::PinFirstContact,
        call_ensures(resolve, (&presented, None, decision), resolution),
    ensures
        resolution == (Resolution {
            state: TrustState::FirstContact,
            action: RequiredAction::PinPrompt,
            intent: PersistenceIntent::RecordObservation { pubkey: presented },
        }),
{
}

/// A key that is already retained stays in the state of its provenance, with
/// nothing persisted, under every decision that does not make it firmer.
pub proof fn law_retained_key_keeps_its_state(
    retained: RetainedIdentity,
    decision: UserDecision,
    resolution: Resolution,
)
    requires
        decision != UserDecision::ConfirmPip,
        decision == UserDecision::PinFirstContact ==> retained.provenance
            != RetainedProvenance::Observed,
        call_ensures(resolve, (&retained.pubkey, Some(&retained), decision), resolution),
    ensures
        resolution.intent == PersistenceIntent::Nothing,
        retained.provenance == RetainedProvenance::Observed ==> resolution.state
            == TrustState::FirstContact && resolution.action == RequiredAction::PinPrompt,
        retained.provenance == RetainedProvenance::Pinned ==> resolution.state
            == TrustState::TofuPinned && resolution.action == RequiredAction::NoAction,
        retained.provenance == RetainedProvenance::ExternallyVerified ==> resolution.state
            == TrustState::ExternallyVerified && resolution.action == RequiredAction::NoAction,
{
}

/// The diagnostic names what happened: a rejection or a mismatch of keys, an
/// observation or an unverified replacement as first contact, a pin, a
/// verification. Where nothing is recorded and no key changed there is none.
pub proof fn law_diagnostic_names_what_happened(
    presented: PublisherPubkey,
    retained: Option<RetainedIdentity>,
    decision: UserDecision,
    resolution: Resolution,
    code: Option<DiagnosticCode>,
)
    requires
        match retained {
            Some(r) => call_ensures(resolve, (&presented, Some(&r), decision), resolution),
            None => call_ensures(resolve, (&presented, None, decision), resolution),
        },
        call_ensures(trust_diagnostic, (&resolution, decision), code),
    ensures
        resolution.state == TrustState::ChangedMismatch ==> code == Some(
            if decision == UserDecision::RejectNewIdentity {
                DiagnosticCode::ETrustUserRejected
            } else {
                DiagnosticCode::ETrustMismatch
            },
        ),
        resolution.state != TrustState::ChangedMismatch ==> match resolution.intent {
            PersistenceIntent::Nothing => code is None,
            PersistenceIntent::RecordObservation { .. } => code == Some(
                DiagnosticCode::ITrustFirstContact,
            ),
            PersistenceIntent::PinIdentity { .. } => code == Some(DiagnosticCode::ITrustTofuPinned),
            PersistenceIntent::MarkExternallyVerified { .. } => code == Some(
                DiagnosticCode::ITrustVerified,
            ),
            PersistenceIntent::ReplaceIdentity { externally_verified, .. } => code == Some(
                if externally_verified {
                    DiagnosticCode::ITrustVerified
                } else {
                    DiagnosticCode::ITrustFirstContact
                },
            ),
        },
{
}

/// Each state surfaces a code of its own, and only beside an intent that leads
/// to it, whatever resolution is asked about.
pub proof fn law_each_state_has_its_own_code(
    resolution: Resolution,
    decision: UserDecision,
    code: Option<DiagnosticCode>,
)
    requires
        call_ensures(trust_diagnostic, (&resolution, decision), code),
        resolution.state != TrustState::ChangedMismatch,
    ensures
        code == Some(DiagnosticCode::ITrustFirstContact) <==> resolution.state
            == TrustState::FirstContact && (resolution.intent is RecordObservation
            || resolution.intent is ReplaceIdentity),
        code == Some(DiagnosticCode::ITrustTofuPinned) <==> resolution.state
            == TrustState::TofuPinned && resolution.intent is PinIdentity,
        code == Some(DiagnosticCode::ITrustVerified) <==> resolution.state
            == TrustState::ExternallyVerified && (resolution.intent is MarkExternallyVerified || (
        resolution.intent is ReplaceIdentity && resolution.intent->externally_verified)),
        code matches Some(c) ==> c == DiagnosticCode::ITrustFirstContact || c
            == DiagnosticCode::ITrustTofuPinned || c == DiagnosticCode::ITrustVerified,
{
}

} // verus!
