//! The load path: from fetched bytes to what the window draws.
//!
//! [`load`] verifies a manifest and, where one is given, a content document,
//! resolves trust against what is retained for the site, and describes the
//! chrome. The first load resolves with no decision; the user's decision comes
//! later and goes through [`Loaded::apply_decision`], which says what is to be
//! persisted.
use crate::chrome;
use crate::chrome::{ChromeConditions, ChromeView, Warning};
use crate::history;
use crate::history::{record_for, PublisherHistory};
use crate::io::Clock;
use crate::pipeline;
use crate::pipeline::{
    verify_content, verify_manifest, CanaryChecked, Outcome, VerifiedManifest, Verifier,
};
use crate::protocol::{
    CanaryState, Diagnostic, EntangledTimestamp, Manifest, OnionAddress, PublisherPubkey,
    RetainedManifestRecord,
};
use crate::scene::Scene;
use crate::text::joined;
use crate::trust;
use crate::trust::{
    resolve, PersistenceIntent, RequiredAction, Resolution, RetainedIdentity, TrustState,
    UserDecision,
};
use vstd::prelude::*;

verus! {

/// A verifier that also presents what it verified.
pub trait Presenter: Verifier {
    /// The identity phrase of a publisher.
    fn identity_phrase(&self, publisher: &PublisherPubkey) -> String;

    /// The scene of a content document.
    fn scene(&self, document: &Self::Document) -> Scene;
}

/// What the window draws, and what drives the trust flow.
pub struct Loaded {
    /// The chrome.
    pub chrome: ChromeView,
    /// The content, where a content document was given.
    pub scene: Option<Scene>,
    /// The key the manifest presents; the history is kept under it.
    pub publisher: PublisherPubkey,
    /// The site the manifest came from; the identity is kept under it.
    pub site: OnionAddress,
    /// What was retained for the site at load.
    pub retained: Option<RetainedIdentity>,
    /// Which prompt the shell must show.
    pub required_action: RequiredAction,
    /// What is to be persisted right after the load, without any decision: at
    /// first contact the observation, without which a later change of the
    /// site's key would go unnoticed.
    pub initial_intent: PersistenceIntent,
    /// The record to append to the publisher's history.
    pub record: Option<RetainedManifestRecord>,
    /// The canary state found at load.
    pub canary_state: CanaryState,
    /// The compact address given at load.
    pub compact_address: String,
}

impl Loaded {
    /// The chrome and the prompt are those of `decision`.
    pub open spec fn resolved_under(&self, pip: Seq<char>, decision: UserDecision) -> bool {
        &&& self.chrome.shows(
            pip,
            trust::resolved_state(self.publisher, self.retained, decision),
            self.canary_state,
            self.compact_address@,
            chrome::no_conditions(),
        )
        &&& self.required_action == trust::resolved_action(self.publisher, self.retained, decision)
    }

    /// This is what is loaded for `manifest`, with no decision taken.
    pub open spec fn presents(
        &self,
        manifest: Manifest,
        canary_state: CanaryState,
        pip: Seq<char>,
        site: Seq<char>,
        compact_address: Seq<char>,
        retained: Option<RetainedIdentity>,
    ) -> bool {
        &&& self.resolved_under(pip, UserDecision::NoDecision)
        &&& self.publisher == manifest.publisher_pubkey
        &&& self.site@ == site
        &&& self.retained == retained
        &&& self.initial_intent == trust::resolved_intent(
            self.publisher,
            retained,
            UserDecision::NoDecision,
        )
        &&& self.record == history::record_of(manifest)
        &&& self.canary_state == canary_state
        &&& self.compact_address@ == compact_address
    }

    /// Assemble what is loaded for a verified manifest whose publisher has
    /// identity phrase `pip`.
    pub fn assemble(
        manifest: &Manifest,
        canary_state: CanaryState,
        pip: String,
        scene: Option<Scene>,
        site: &OnionAddress,
        compact_address: String,
        retained: Option<&RetainedIdentity>,
    ) -> (loaded: Loaded)
        ensures
            loaded.presents(
                *manifest,
                canary_state,
                pip@,
                site@,
                compact_address@,
                trust::retained_value(retained),
            ),
            loaded.scene == scene,
    {
        let publisher = manifest.publisher_pubkey;
        let resolution = resolve(&publisher, retained, UserDecision::NoDecision);
        let chrome = ChromeView::build(
            pip,
            resolution.state,
            canary_state,
            compact_address.clone(),
            ChromeConditions::default(),
        );
        Loaded {
            chrome,
            scene,
            publisher,
            site: site.duplicate(),
            retained: match retained {
                Some(r) => Some(*r),
                None => None,
            },
            required_action: resolution.action,
            initial_intent: resolution.intent,
            record: record_for(manifest),
            canary_state,
            compact_address,
        }
    }

    /// Resolve trust again under the user's `decision`, and show the state it
    /// leads to. The result is what the shell must persist.
    pub fn apply_decision(&mut self, decision: UserDecision) -> (intent: PersistenceIntent)
        ensures
            intent == trust::resolved_intent(old(self).publisher, old(self).retained, decision),
            final(self).resolved_under(old(self).chrome.pip@, decision),
            final(self).scene == old(self).scene,
            final(self).publisher == old(self).publisher,
            final(self).site == old(self).site,
            final(self).retained == old(self).retained,
            final(self).initial_intent == old(self).initial_intent,
            final(self).record == old(self).record,
            final(self).canary_state == old(self).canary_state,
            final(self).compact_address == old(self).compact_address,
    {
        let resolution = resolve(&self.publisher, self.retained.as_ref(), decision);
        self.chrome =
        ChromeView::build(
            self.chrome.pip.clone(),
            resolution.state,
            self.canary_state,
            self.compact_address.clone(),
            ChromeConditions::default(),
        );
        self.required_action = resolution.action;
        resolution.intent
    }
}

/// Why nothing was loaded: which document was rejected, and its diagnostic.
#[derive(Clone, Debug)]
pub struct LoadError(pub String);

impl LoadError {
    /// The error's text.
    pub fn message(&self) -> (text: &str)
        ensures
            text@ == self.0@,
    {
        self.0.as_str()
    }
}

/// What is loaded once the content document was verified, or none was given.
pub open spec fn content_step<V: Presenter>(
    presenter: &V,
    verified: VerifiedManifest<V::Index>,
    content_bytes: Option<&[u8]>,
    site: Seq<char>,
    compact_address: Seq<char>,
    retained: Option<RetainedIdentity>,
    result: Result<Loaded, LoadError>,
) -> bool {
    match content_bytes {
        None => result matches Ok(loaded) && loaded.scene is None && presented(
            presenter,
            verified,
            site,
            compact_address,
            retained,
            loaded,
        ),
        Some(bytes) => exists|document: Result<V::Document, Diagnostic>|
            {
                &&& #[trigger] call_ensures(
                    V::verify_document,
                    (presenter, bytes, &verified.manifest.canary.runtime_pubkey),
                    document,
                )
                &&& match document {
                    Ok(d) => result matches Ok(loaded) && loaded.scene is Some && call_ensures(
                        V::scene,
                        (presenter, &d),
                        loaded.scene->0,
                    ) && presented(presenter, verified, site, compact_address, retained, loaded),
                    Err(diagnostic) => result matches Err(e) && e.0@ == "content rejected: "@
                        + diagnostic.detail@,
                }
            },
    }
}

/// `loaded` presents the manifest under the phrase of its publisher.
pub open spec fn presented<V: Presenter>(
    presenter: &V,
    verified: VerifiedManifest<V::Index>,
    site: Seq<char>,
    compact_address: Seq<char>,
    retained: Option<RetainedIdentity>,
    loaded: Loaded,
) -> bool {
    exists|pip: String|
        {
            &&& #[trigger] call_ensures(
                V::identity_phrase,
                (presenter, &verified.manifest.publisher_pubkey),
                pip,
            )
            &&& loaded.presents(
                verified.manifest,
                verified.canary_state,
                pip@,
                site,
                compact_address,
                retained,
            )
        }
}

/// Verify `manifest_bytes`, and `content_bytes` where given, against the
/// retained `history`; resolve trust against the `retained` identity; and build
/// the chrome and the scene.
///
/// `fetched_address` is the site the bytes came from. `compact_address` is shown
/// in the chrome. A rejected manifest, or a rejected content document, loads
/// nothing. The content document is verified only under the runtime key of the
/// manifest that was accepted.
pub fn load<C: Clock, V: Presenter>(
    manifest_bytes: &[u8],
    content_bytes: Option<&[u8]>,
    fetched_address: &OnionAddress,
    compact_address: String,
    clock: &C,
    retained: Option<&RetainedIdentity>,
    history: &PublisherHistory,
    presenter: &V,
) -> (result: Result<Loaded, LoadError>)
    requires
        content_bytes matches Some(content) ==> forall|
            now: EntangledTimestamp,
            verified: VerifiedManifest<V::Index>,
        |
            #[trigger] call_ensures(C::now, (clock,), now) && #[trigger] pipeline::signature_stage(
                presenter,
                manifest_bytes,
                fetched_address,
                now,
                None,
                history@,
                Outcome::Accept(verified),
            ) ==> presenter.may_verify(content@, verified.manifest.canary.runtime_pubkey),
    ensures
        exists|now: EntangledTimestamp, outcome: Outcome<VerifiedManifest<V::Index>>|
            {
                &&& #[trigger] call_ensures(C::now, (clock,), now)
                &&& #[trigger] pipeline::signature_stage(
                    presenter,
                    manifest_bytes,
                    fetched_address,
                    now,
                    None,
                    history@,
                    outcome,
                )
                &&& match outcome {
                    Outcome::Reject(diagnostic) => result matches Err(e) && e.0@
                        == "manifest rejected: "@ + diagnostic.detail@,
                    Outcome::Accept(verified) => content_step(
                        presenter,
                        verified,
                        content_bytes,
                        fetched_address@,
                        compact_address@,
                        trust::retained_value(retained),
                        result,
                    ),
                }
            },
{
    let outcome = verify_manifest(
        manifest_bytes,
        fetched_address,
        None,
        clock,
        history,
        presenter,
    );
    let ghost manifest_outcome = outcome;
    let ghost now = choose|now: EntangledTimestamp|
        #[trigger] call_ensures(C::now, (clock,), now) && pipeline::signature_stage(
            presenter,
            manifest_bytes,
            fetched_address,
            now,
            None,
            history@,
            manifest_outcome,
        );
    assert(call_ensures(C::now, (clock,), now) && pipeline::signature_stage(
        presenter,
        manifest_bytes,
        fetched_address,
        now,
        None,
        history@,
        manifest_outcome,
    ));
    let verified = match outcome {
        Outcome::Accept(verified) => verified,
        Outcome::Reject(diagnostic) => {
            return Err(LoadError(joined("manifest rejected: ", diagnostic.detail.as_str())));
        },
    };
    let pip = presenter.identity_phrase(&verified.manifest.publisher_pubkey);
    assert(call_ensures(
        V::identity_phrase,
        (presenter, &verified.manifest.publisher_pubkey),
        pip,
    ));
    let scene = match content_bytes {
        Some(bytes) => {
            let document = verify_content(bytes, &verified, presenter);
            match document {
                Outcome::Accept(document) => {
                    let scene = presenter.scene(&document);
                    assert(call_ensures(V::scene, (presenter, &document), scene));
                    Some(scene)
                },
                Outcome::Reject(diagnostic) => {
                    let result = Err(
                        LoadError(joined("content rejected: ", diagnostic.detail.as_str())),
                    );
                    assert(content_step(
                        presenter,
                        verified,
                        content_bytes,
                        fetched_address@,
                        compact_address@,
                        trust::retained_value(retained),
                        result,
                    ));
                    return result;
                },
            }
        },
        None => None,
    };
    let loaded = Loaded::assemble(
        &verified.manifest,
        verified.canary_state,
        pip,
        scene,
        fetched_address,
        compact_address,
        retained,
    );
    proof {
        assert(presented(
            presenter,
            verified,
            fetched_address@,
            compact_address@,
            trust::retained_value(retained),
            loaded,
        ));
        assert(content_step(
            presenter,
            verified,
            content_bytes,
            fetched_address@,
            compact_address@,
            trust::retained_value(retained),
            Ok(loaded),
        ));
    }
    Ok(loaded)
}

/// Loading never pins: without a decision at most an observation of the
/// presented key is persisted, and that only where nothing is retained.
pub proof fn law_load_persists_at_most_an_observation(
    loaded: Loaded,
    manifest: Manifest,
    canary_state: CanaryState,
    pip: Seq<char>,
    site: Seq<char>,
    compact_address: Seq<char>,
    retained: Option<RetainedIdentity>,
)
    requires
        loaded.presents(manifest, canary_state, pip, site, compact_address, retained),
    ensures
        loaded.initial_intent == (if retained is None {
            PersistenceIntent::RecordObservation { pubkey: manifest.publisher_pubkey }
        } else {
            PersistenceIntent::Nothing
        }),
{
}

/// What is loaded is what was verified: the publisher, the record and the canary
/// state are those of the manifest that passed every stage, the phrase is that
/// of its publisher, the scene is that of the content document that verified
/// under its runtime key. The site, the address and what was retained are those
/// that were given. The trust shown, the prompt and what is to be persisted are
/// those that the publisher's key resolves to without a decision.
pub proof fn law_loaded_is_what_was_verified<C: Clock, V: Presenter>(
    manifest_bytes: &[u8],
    content_bytes: Option<&[u8]>,
    fetched_address: &OnionAddress,
    compact_address: String,
    clock: &C,
    retained: Option<&RetainedIdentity>,
    history: &PublisherHistory,
    presenter: &V,
    loaded: Loaded,
    resolution: Resolution,
)
    requires
        call_ensures(
            load::<C, V>,
            (
                manifest_bytes,
                content_bytes,
                fetched_address,
                compact_address,
                clock,
                retained,
                history,
                presenter,
            ),
            Ok(loaded),
        ),
        call_ensures(resolve, (&loaded.publisher, retained, UserDecision::NoDecision), resolution),
    ensures
        exists|
            now: EntangledTimestamp,
            signed: V::Signed,
            checked: CanaryChecked<V::Checked>,
            bound: V::Bound,
            pip: String,
        |
            {
                &&& #[trigger] call_ensures(C::now, (clock,), now)
                &&& call_ensures(
                    V::verify_signature,
                    (presenter, manifest_bytes, now),
                    Ok(signed),
                )
                &&& #[trigger] call_ensures(V::verify_canary, (presenter, signed, now), Ok(checked))
                &&& #[trigger] call_ensures(
                    V::verify_origin,
                    (presenter, checked.stage, fetched_address, now),
                    Ok(bound),
                )
                &&& #[trigger] call_ensures(
                    V::identity_phrase,
                    (presenter, &checked.manifest.publisher_pubkey),
                    pip,
                )
                &&& loaded.chrome.pip@ == pip@
                &&& loaded.publisher == checked.manifest.publisher_pubkey
                &&& loaded.canary_state == checked.canary_state
                &&& loaded.chrome.canary_state == checked.canary_state
                &&& match checked.manifest.canary.issued_at {
                    Some(issued_at) => loaded.record matches Some(r) && r.issued_at == issued_at
                        && r.runtime_pubkey == checked.manifest.canary.runtime_pubkey
                        && r.manifest_payload_hash == checked.manifest.payload_hash,
                    None => loaded.record is None,
                }
                &&& match content_bytes {
                    None => loaded.scene is None,
                    Some(bytes) => loaded.scene is Some && exists|document: V::Document|
                        {
                            &&& #[trigger] call_ensures(
                                V::verify_document,
                                (presenter, bytes, &checked.manifest.canary.runtime_pubkey),
                                Ok(document),
                            )
                            &&& call_ensures(V::scene, (presenter, &document), loaded.scene->0)
                        },
                }
            },
        loaded.site@ == fetched_address@,
        loaded.compact_address@ == compact_address@,
        loaded.chrome.carrier_address_compact@ == compact_address@,
        match retained {
            Some(r) => loaded.retained == Some(*r),
            None => loaded.retained is None,
        },
        loaded.chrome.trust_state == resolution.state,
        loaded.required_action == resolution.action,
        loaded.initial_intent == resolution.intent,
{
    let result = Ok::<Loaded, LoadError>(loaded);
    let (now, outcome) = choose|
        now: EntangledTimestamp,
        outcome: Outcome<VerifiedManifest<V::Index>>,
    |
        {
            &&& #[trigger] call_ensures(C::now, (clock,), now)
            &&& #[trigger] pipeline::signature_stage(
                presenter,
                manifest_bytes,
                fetched_address,
                now,
                None,
                history@,
                outcome,
            )
            &&& outcome matches Outcome::Accept(verified)
            &&& content_step(
                presenter,
                verified,
                content_bytes,
                fetched_address@,
                compact_address@,
                trust::retained_value(retained),
                result,
            )
        };
    let verified = outcome->Accept_0;
    let (signed, checked, bound) = pipeline::lemma_accepted_stages(
        presenter,
        manifest_bytes,
        fetched_address,
        now,
        None,
        history@,
        verified,
    );
    assert(presented(
        presenter,
        verified,
        fetched_address@,
        compact_address@,
        trust::retained_value(retained),
        loaded,
    ));
    let pip = choose|pip: String|
        {
            &&& #[trigger] call_ensures(
                V::identity_phrase,
                (presenter, &verified.manifest.publisher_pubkey),
                pip,
            )
            &&& loaded.presents(
                verified.manifest,
                verified.canary_state,
                pip@,
                fetched_address@,
                compact_address@,
                trust::retained_value(retained),
            )
        };
    if let Some(bytes) = content_bytes {
        let document = choose|document: Result<V::Document, Diagnostic>|
            {
                &&& #[trigger] call_ensures(
                    V::verify_document,
                    (presenter, bytes, &verified.manifest.canary.runtime_pubkey),
                    document,
                )
                &&& document matches Ok(d)
                &&& call_ensures(V::scene, (presenter, &d), loaded.scene->0)
                &&& loaded.scene is Some
            };
        assert(call_ensures(
            V::verify_document,
            (presenter, bytes, &checked.manifest.canary.runtime_pubkey),
            Ok(document->Ok_0),
        ));
    }
    assert(call_ensures(C::now, (clock,), now));
    assert(call_ensures(V::verify_canary, (presenter, signed, now), Ok(checked)));
    assert(call_ensures(
        V::verify_origin,
        (presenter, checked.stage, fetched_address, now),
        Ok(bound),
    ));
    assert(call_ensures(
        V::identity_phrase,
        (presenter, &checked.manifest.publisher_pubkey),
        pip,
    ));
}

/// Nothing is loaded only for a reason, and the reason is told: the manifest was
/// rejected, or it was accepted and the content document was rejected under its
/// runtime key, each with the diagnostic of that rejection.
pub proof fn law_refused_load_tells_why<C: Clock, V: Presenter>(
    manifest_bytes: &[u8],
    content_bytes: Option<&[u8]>,
    fetched_address: &OnionAddress,
    compact_address: String,
    clock: &C,
    retained: Option<&RetainedIdentity>,
    history: &PublisherHistory,
    presenter: &V,
    error: LoadError,
)
    requires
        call_ensures(
            load::<C, V>,
            (
                manifest_bytes,
                content_bytes,
                fetched_address,
                compact_address,
                clock,
                retained,
                history,
                presenter,
            ),
            Err(error),
        ),
    ensures
        exists|now: EntangledTimestamp|
            {
                &&& #[trigger] call_ensures(C::now, (clock,), now)
                &&& {
                    ||| exists|diagnostic: Diagnostic| #[trigger]
                        pipeline::signature_stage(
                            presenter,
                            manifest_bytes,
                            fetched_address,
                            now,
                            None,
                            history@,
                            Outcome::Reject(diagnostic),
                        ) && error.0@ == "manifest rejected: "@ + diagnostic.detail@
                    ||| content_bytes is Some && exists|
                        verified: VerifiedManifest<V::Index>,
                        diagnostic: Diagnostic,
                    |
                        {
                            &&& #[trigger] pipeline::signature_stage(
                                presenter,
                                manifest_bytes,
                                fetched_address,
                                now,
                                None,
                                history@,
                                Outcome::Accept(verified),
                            )
                            &&& #[trigger] call_ensures(
                                V::verify_document,
                                (
                                    presenter,
                                    content_bytes->0,
                                    &verified.manifest.canary.runtime_pubkey,
                                ),
                                Err(diagnostic),
                            )
                            &&& error.0@ == "content rejected: "@ + diagnostic.detail@
                        }
                }
            },
{
    let result = Err::<Loaded, LoadError>(error);
    let (now, outcome) = choose|
        now: EntangledTimestamp,
        outcome: Outcome<VerifiedManifest<V::Index>>,
    |
        {
            &&& #[trigger] call_ensures(C::now, (clock,), now)
            &&& #[trigger] pipeline::signature_stage(
                presenter,
                manifest_bytes,
                fetched_address,
                now,
                None,
                history@,
                outcome,
            )
            &&& match outcome {
                Outcome::Reject(diagnostic) => result matches Err(e) && e.0@
                    == "manifest rejected: "@ + diagnostic.detail@,
                Outcome::Accept(verified) => content_step(
                    presenter,
                    verified,
                    content_bytes,
                    fetched_address@,
                    compact_address@,
                    trust::retained_value(retained),
                    result,
                ),
            }
        };
    assert(call_ensures(C::now, (clock,), now));
    match outcome {
        Outcome::Reject(diagnostic) => {
            assert(pipeline::signature_stage(
                presenter,
                manifest_bytes,
                fetched_address,
                now,
                None,
                history@,
                Outcome::<VerifiedManifest<V::Index>>::Reject(diagnostic),
            ));
        },
        Outcome::Accept(verified) => {
            let document = choose|document: Result<V::Document, Diagnostic>|
                {
                    &&& #[trigger] call_ensures(
                        V::verify_document,
                        (presenter, content_bytes->0, &verified.manifest.canary.runtime_pubkey),
                        document,
                    )
                    &&& document matches Err(diagnostic)
                    &&& error.0@ == "content rejected: "@ + diagnostic.detail@
                };
            assert(pipeline::signature_stage(
                presenter,
                manifest_bytes,
                fetched_address,
                now,
                None,
                history@,
                Outcome::Accept(verified),
            ));
            assert(call_ensures(
                V::verify_document,
                (presenter, content_bytes->0, &verified.manifest.canary.runtime_pubkey),
                Err(document->Err_0),
            ));
        },
    }
}

/// A decision shows, demands and persists what the publisher's key resolves to
/// under it, against what was retained at load. It changes nothing else: not the
/// content, not the canary state, not what a later decision is held against.
pub proof fn law_decision_is_resolved_against_the_load(
    loaded: &mut Loaded,
    decision: UserDecision,
    intent: PersistenceIntent,
    resolution: Resolution,
)
    requires
        call_ensures(Loaded::apply_decision, (loaded, decision), intent),
        match old(loaded).retained {
            Some(r) => call_ensures(
                resolve,
                (&old(loaded).publisher, Some(&r), decision),
                resolution,
            ),
            None => call_ensures(resolve, (&old(loaded).publisher, None, decision), resolution),
        },
    ensures
        intent == resolution.intent,
        final(loaded).chrome.trust_state == resolution.state,
        final(loaded).required_action == resolution.action,
        final(loaded).chrome.canary_state == old(loaded).canary_state,
        final(loaded).chrome.pip@ == old(loaded).chrome.pip@,
        final(loaded).chrome.carrier_address_compact@ == old(loaded).compact_address@,
        final(loaded).scene == old(loaded).scene,
        final(loaded).publisher == old(loaded).publisher,
        final(loaded).site == old(loaded).site,
        final(loaded).retained == old(loaded).retained,
        final(loaded).record == old(loaded).record,
        final(loaded).canary_state == old(loaded).canary_state,
        final(loaded).initial_intent == old(loaded).initial_intent,
        final(loaded).compact_address == old(loaded).compact_address,
{
}

/// The chrome of a load, and of every decision after it, warns of a changed key
/// and of an expired or invalid canary, and of nothing that was not observed. It
/// shows the whole phrase while the identity is in question.
pub proof fn law_loaded_chrome_warns(
    manifest: Manifest,
    canary_state: CanaryState,
    pip: String,
    scene: Option<Scene>,
    site: OnionAddress,
    compact_address: String,
    retained: Option<&RetainedIdentity>,
    fresh: Loaded,
    loaded: &mut Loaded,
    decision: UserDecision,
    intent: PersistenceIntent,
)
    requires
        call_ensures(
            Loaded::assemble,
            (&manifest, canary_state, pip, scene, &site, compact_address, retained),
            fresh,
        ),
        call_ensures(Loaded::apply_decision, (loaded, decision), intent),
    ensures
        warns_as_it_should(fresh),
        fresh.chrome.canary_state == canary_state,
        fresh.canary_state == canary_state,
        fresh.scene == scene,
        fresh.publisher == manifest.publisher_pubkey,
        warns_as_it_should(*final(loaded)),
{
    lemma_shown_chrome_warns(fresh, pip@, UserDecision::NoDecision);
    lemma_shown_chrome_warns(*final(loaded), old(loaded).chrome.pip@, decision);
}

/// The chrome warns of what its states call for.
pub open spec fn warns_as_it_should(loaded: Loaded) -> bool {
    let chrome = loaded.chrome;
    &&& chrome.warnings@.contains(Warning::TrustMismatch) <==> chrome.trust_state
        == TrustState::ChangedMismatch
    &&& chrome.warnings@.contains(Warning::CanaryExpired) <==> loaded.canary_state
        == CanaryState::Expired
    &&& chrome.warnings@.contains(Warning::CanaryInvalid) <==> loaded.canary_state
        == CanaryState::Invalid
    &&& !chrome.warnings@.contains(Warning::CanaryConflict)
    &&& !chrome.warnings@.contains(Warning::CanaryGap)
    &&& !chrome.warnings@.contains(Warning::HistoricalContent)
    &&& !chrome.warnings@.contains(Warning::StaleCachedContent)
    &&& !chrome.request_state_active
    &&& chrome.pip_must_be_fully_shown <==> chrome.trust_state == TrustState::FirstContact
        || chrome.trust_state == TrustState::ChangedMismatch
}

proof fn lemma_shown_chrome_warns(loaded: Loaded, pip: Seq<char>, decision: UserDecision)
    requires
        loaded.resolved_under(pip, decision),
    ensures
        warns_as_it_should(loaded),
{
    let state = trust::resolved_state(loaded.publisher, loaded.retained, decision);
    let canary = loaded.canary_state;
    let none = chrome::no_conditions();
    chrome::law_warning_shown_iff_it_holds(state, canary, none, Warning::TrustMismatch);
    chrome::law_warning_shown_iff_it_holds(state, canary, none, Warning::CanaryExpired);
    chrome::law_warning_shown_iff_it_holds(state, canary, none, Warning::CanaryInvalid);
    chrome::law_warning_shown_iff_it_holds(state, canary, none, Warning::CanaryConflict);
    chrome::law_warning_shown_iff_it_holds(state, canary, none, Warning::CanaryGap);
    chrome::law_warning_shown_iff_it_holds(state, canary, none, Warning::HistoricalContent);
    chrome::law_warning_shown_iff_it_holds(state, canary, none, Warning::StaleCachedContent);
}

} // verus!
