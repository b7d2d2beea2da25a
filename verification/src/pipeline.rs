//! The validation pipeline.
//!
//! Documents are verified stage by stage, and the first stage that fails gives
//! the diagnostic: signature, canary and publisher history, origin binding,
//! content index. The document verifier performs the stages that need the wire
//! format and its cryptography; this module orders them, runs the history
//! checks in their place, and assembles the verdict.
//!
//! Nothing is fetched here. The driver is given the fetched bytes, the address
//! they came from and a clock.
use crate::history;
use crate::history::{check_against_history, PublisherHistory};
use crate::io::Clock;
use crate::protocol::{
    CanaryState, Diagnostic, EntangledTimestamp, Manifest, OnionAddress, RetainedManifestRecord,
    RuntimePubkey,
};
use vstd::prelude::*;

verus! {

/// The verdict on a document.
#[derive(Debug)]
pub enum Outcome<T> {
    /// It passed every stage.
    Accept(T),
    /// The diagnostic of the first stage that failed.
    Reject(Diagnostic),
}

impl<T> Outcome<T> {
    /// Whether the document is accepted.
    pub fn is_accepted(&self) -> (accepted: bool)
        ensures
            accepted == (*self is Accept),
    {
        match self {
            Outcome::Accept(_) => true,
            Outcome::Reject(_) => false,
        }
    }

    /// Why the document is rejected.
    pub fn diagnostic(&self) -> (diagnostic: Option<&Diagnostic>)
        ensures
            match *self {
                Outcome::Reject(d) => diagnostic == Some(&d),
                Outcome::Accept(_) => diagnostic is None,
            },
    {
        match self {
            Outcome::Reject(d) => Some(d),
            Outcome::Accept(_) => None,
        }
    }
}

/// A manifest whose signature and canary verified, in the verifier's own form
/// and with what the client reads of it.
pub struct CanaryChecked<T> {
    /// The manifest.
    pub manifest: Manifest,
    /// The state of its canary.
    pub canary_state: CanaryState,
    /// The verifier's form of it, for the stages that follow.
    pub stage: T,
}

/// The document verifier: the stages that read the wire format.
///
/// Each stage takes what the one before it gave and either passes it on or
/// reports the diagnostic of its first failure.
pub trait Verifier {
    /// A manifest whose signature verified.
    type Signed;

    /// A manifest whose canary verified too.
    type Checked;

    /// A manifest that is bound to its origin too.
    type Bound;

    /// A validated content index.
    type Index;

    /// A content document whose signature verified.
    type Document;

    /// Parse the manifest bytes and verify their signature.
    fn verify_signature(&self, manifest_bytes: &[u8], now: EntangledTimestamp) -> Result<
        Self::Signed,
        Diagnostic,
    >;

    /// Verify the canary window.
    fn verify_canary(&self, signed: Self::Signed, now: EntangledTimestamp) -> Result<
        CanaryChecked<Self::Checked>,
        Diagnostic,
    >;

    /// Verify that the manifest is bound to the address it was fetched from.
    fn verify_origin(
        &self,
        checked: Self::Checked,
        fetched_address: &OnionAddress,
        now: EntangledTimestamp,
    ) -> Result<Self::Bound, Diagnostic>;

    /// Verify the content index against the manifest's commitment to one.
    fn verify_content_index(
        &self,
        bound: Self::Bound,
        content_index_bytes: Option<&[u8]>,
    ) -> Result<Option<Self::Index>, Diagnostic>;

    /// Whether a content document may be verified under this key. Callers grant
    /// it for the key of the verified manifest alone, and `verify_document`
    /// demands it.
    open spec fn may_verify(&self, content: Seq<u8>, key: RuntimePubkey) -> bool {
        true
    }

    /// Parse the content bytes and verify their signature under `key`.
    fn verify_document(&self, content_bytes: &[u8], key: &RuntimePubkey) -> Result<
        Self::Document,
        Diagnostic,
    >
        requires
            self.may_verify(content_bytes@, *key),
    ;
}

/// A manifest that passed every stage.
#[derive(Debug)]
pub struct VerifiedManifest<I> {
    /// The manifest.
    pub manifest: Manifest,
    /// The state of its canary at the time of verification.
    pub canary_state: CanaryState,
    /// The content index, where the manifest commits to one.
    pub content_index: Option<I>,
}

impl<I> VerifiedManifest<I> {
    /// The runtime key that this manifest authorizes to sign documents.
    pub fn runtime_pubkey(&self) -> (key: &RuntimePubkey)
        ensures
            *key == self.manifest.canary.runtime_pubkey,
    {
        &self.manifest.canary.runtime_pubkey
    }
}

/// The outcome where the content-index stage comes next.
pub open spec fn index_stage<V: Verifier>(
    verifier: &V,
    manifest: Manifest,
    canary_state: CanaryState,
    bound: V::Bound,
    content_index_bytes: Option<&[u8]>,
    outcome: Outcome<VerifiedManifest<V::Index>>,
) -> bool {
    exists|result: Result<Option<V::Index>, Diagnostic>|
        {
            &&& #[trigger] call_ensures(
                V::verify_content_index,
                (verifier, bound, content_index_bytes),
                result,
            )
            &&& outcome == (match result {
                Ok(content_index) => Outcome::Accept(
                    VerifiedManifest { manifest, canary_state, content_index },
                ),
                Err(diagnostic) => Outcome::Reject(diagnostic),
            })
        }
}

/// The outcome where origin binding comes next.
pub open spec fn origin_stage<V: Verifier>(
    verifier: &V,
    checked: CanaryChecked<V::Checked>,
    fetched_address: &OnionAddress,
    now: EntangledTimestamp,
    content_index_bytes: Option<&[u8]>,
    outcome: Outcome<VerifiedManifest<V::Index>>,
) -> bool {
    exists|result: Result<V::Bound, Diagnostic>|
        {
            &&& #[trigger] call_ensures(
                V::verify_origin,
                (verifier, checked.stage, fetched_address, now),
                result,
            )
            &&& match result {
                Ok(bound) => index_stage(
                    verifier,
                    checked.manifest,
                    checked.canary_state,
                    bound,
                    content_index_bytes,
                    outcome,
                ),
                Err(diagnostic) => outcome == Outcome::<VerifiedManifest<V::Index>>::Reject(
                    diagnostic,
                ),
            }
        }
}

/// The outcome where the history checks come next.
pub open spec fn history_stage<V: Verifier>(
    verifier: &V,
    checked: CanaryChecked<V::Checked>,
    fetched_address: &OnionAddress,
    now: EntangledTimestamp,
    content_index_bytes: Option<&[u8]>,
    history: Seq<RetainedManifestRecord>,
    outcome: Outcome<VerifiedManifest<V::Index>>,
) -> bool {
    match history::history_verdict(checked.manifest, history) {
        Some(code) => outcome matches Outcome::Reject(diagnostic) && diagnostic.code == code
            && diagnostic.detail@ == history::history_detail(code),
        None => origin_stage(
            verifier,
            checked,
            fetched_address,
            now,
            content_index_bytes,
            outcome,
        ),
    }
}

/// The outcome where the canary stage comes next.
pub open spec fn canary_stage<V: Verifier>(
    verifier: &V,
    signed: V::Signed,
    fetched_address: &OnionAddress,
    now: EntangledTimestamp,
    content_index_bytes: Option<&[u8]>,
    history: Seq<RetainedManifestRecord>,
    outcome: Outcome<VerifiedManifest<V::Index>>,
) -> bool {
    exists|result: Result<CanaryChecked<V::Checked>, Diagnostic>|
        {
            &&& #[trigger] call_ensures(V::verify_canary, (verifier, signed, now), result)
            &&& match result {
                Ok(checked) => history_stage(
                    verifier,
                    checked,
                    fetched_address,
                    now,
                    content_index_bytes,
                    history,
                    outcome,
                ),
                Err(diagnostic) => outcome == Outcome::<VerifiedManifest<V::Index>>::Reject(
                    diagnostic,
                ),
            }
        }
}

/// The outcome where every stage is still to come.
pub open spec fn signature_stage<V: Verifier>(
    verifier: &V,
    manifest_bytes: &[u8],
    fetched_address: &OnionAddress,
    now: EntangledTimestamp,
    content_index_bytes: Option<&[u8]>,
    history: Seq<RetainedManifestRecord>,
    outcome: Outcome<VerifiedManifest<V::Index>>,
) -> bool {
    exists|result: Result<V::Signed, Diagnostic>|
        {
            &&& #[trigger] call_ensures(
                V::verify_signature,
                (verifier, manifest_bytes, now),
                result,
            )
            &&& match result {
                Ok(signed) => canary_stage(
                    verifier,
                    signed,
                    fetched_address,
                    now,
                    content_index_bytes,
                    history,
                    outcome,
                ),
                Err(diagnostic) => outcome == Outcome::<VerifiedManifest<V::Index>>::Reject(
                    diagnostic,
                ),
            }
        }
}

/// Drive a manifest through the pipeline: signature, canary together with the
/// checks against publisher history, origin binding, and the content index
/// where the manifest commits to one.
///
/// `fetched_address` is the address the bytes came from. `content_index_bytes`
/// are the bytes of the content index, where one was fetched. `history` is what
/// the client already accepted from this publisher; it is empty at first
/// contact. One reading of the clock serves every stage.
pub fn verify_manifest<C: Clock, V: Verifier>(
    manifest_bytes: &[u8],
    fetched_address: &OnionAddress,
    content_index_bytes: Option<&[u8]>,
    clock: &C,
    history: &PublisherHistory,
    verifier: &V,
) -> (outcome: Outcome<VerifiedManifest<V::Index>>)
    ensures
        exists|now: EntangledTimestamp|
            #[trigger] call_ensures(C::now, (clock,), now) && signature_stage(
                verifier,
                manifest_bytes,
                fetched_address,
                now,
                content_index_bytes,
                history@,
                outcome,
            ),
        outcome matches Outcome::Accept(verified) ==> history::history_verdict(
            verified.manifest,
            history@,
        ) is None,
{
    let now = clock.now();
    assert(call_ensures(C::now, (clock,), now));
    let signed = verifier.verify_signature(manifest_bytes, now);
    assert(call_ensures(V::verify_signature, (verifier, manifest_bytes, now), signed));
    let signed = match signed {
        Ok(signed) => signed,
        Err(diagnostic) => return Outcome::Reject(diagnostic),
    };
    let checked = verifier.verify_canary(signed, now);
    assert(call_ensures(V::verify_canary, (verifier, signed, now), checked));
    let checked = match checked {
        Ok(checked) => checked,
        Err(diagnostic) => return Outcome::Reject(diagnostic),
    };
    let ghost passed = checked;
    let CanaryChecked { manifest, canary_state, stage } = checked;
    if let Err(diagnostic) = check_against_history(&manifest, history) {
        let outcome = Outcome::Reject(diagnostic);
        assert(history_stage(
            verifier,
            passed,
            fetched_address,
            now,
            content_index_bytes,
            history@,
            outcome,
        ));
        return outcome;
    }
    let bound = verifier.verify_origin(stage, fetched_address, now);
    assert(call_ensures(V::verify_origin, (verifier, passed.stage, fetched_address, now), bound));
    let bound = match bound {
        Ok(bound) => bound,
        Err(diagnostic) => {
            let outcome = Outcome::Reject(diagnostic);
            assert(history_stage(
                verifier,
                passed,
                fetched_address,
                now,
                content_index_bytes,
                history@,
                outcome,
            ));
            return outcome;
        },
    };
    let index = verifier.verify_content_index(bound, content_index_bytes);
    assert(call_ensures(
        V::verify_content_index,
        (verifier, bound, content_index_bytes),
        index,
    ));
    let outcome = match index {
        Ok(content_index) => Outcome::Accept(
            VerifiedManifest { manifest, canary_state, content_index },
        ),
        Err(diagnostic) => Outcome::Reject(diagnostic),
    };
    assert(index_stage(
        verifier,
        manifest,
        canary_state,
        bound,
        content_index_bytes,
        outcome,
    ));
    assert(history_stage(
        verifier,
        passed,
        fetched_address,
        now,
        content_index_bytes,
        history@,
        outcome,
    ));
    outcome
}

/// Verify a content document under the runtime key of a verified manifest. No
/// other key is ever tried: for no other is [`Verifier::may_verify`] granted.
pub fn verify_content<V: Verifier>(
    content_bytes: &[u8],
    manifest: &VerifiedManifest<V::Index>,
    verifier: &V,
) -> (outcome: Outcome<V::Document>)
    requires
        verifier.may_verify(content_bytes@, manifest.manifest.canary.runtime_pubkey),
    ensures
        exists|result: Result<V::Document, Diagnostic>|
            {
                &&& #[trigger] call_ensures(
                    V::verify_document,
                    (verifier, content_bytes, &manifest.manifest.canary.runtime_pubkey),
                    result,
                )
                &&& outcome == (match result {
                    Ok(document) => Outcome::Accept(document),
                    Err(diagnostic) => Outcome::Reject(diagnostic),
                })
            },
{
    let result = verifier.verify_document(content_bytes, manifest.runtime_pubkey());
    assert(call_ensures(
        V::verify_document,
        (verifier, content_bytes, &manifest.manifest.canary.runtime_pubkey),
        result,
    ));
    match result {
        Ok(document) => Outcome::Accept(document),
        Err(diagnostic) => Outcome::Reject(diagnostic),
    }
}

/// The history checks come before origin binding: a manifest that fails them is
/// rejected for that, whatever the later stages would say.
pub proof fn law_history_precedes_origin<V: Verifier>(
    verifier: &V,
    checked: CanaryChecked<V::Checked>,
    fetched_address: &OnionAddress,
    now: EntangledTimestamp,
    content_index_bytes: Option<&[u8]>,
    history: Seq<RetainedManifestRecord>,
    outcome: Outcome<VerifiedManifest<V::Index>>,
)
    requires
        history::history_verdict(checked.manifest, history) is Some,
        history_stage(
            verifier,
            checked,
            fetched_address,
            now,
            content_index_bytes,
            history,
            outcome,
        ),
    ensures
        outcome matches Outcome::Reject(diagnostic) && Some(diagnostic.code)
            == history::history_verdict(checked.manifest, history),
{
}

/// An accepted manifest is the one that its stages passed, with the canary state
/// that the canary stage found at the clock's reading and the content index that
/// the index stage gave. Each stage took what the one before it passed on.
pub proof fn law_accepted_manifest_is_what_its_stages_passed<C: Clock, V: Verifier>(
    manifest_bytes: &[u8],
    fetched_address: &OnionAddress,
    content_index_bytes: Option<&[u8]>,
    clock: &C,
    history: &PublisherHistory,
    verifier: &V,
    verified: VerifiedManifest<V::Index>,
)
    requires
        call_ensures(
            verify_manifest::<C, V>,
            (manifest_bytes, fetched_address, content_index_bytes, clock, history, verifier),
            Outcome::Accept(verified),
        ),
    ensures
        exists|
            now: EntangledTimestamp,
            signed: V::Signed,
            checked: CanaryChecked<V::Checked>,
            bound: V::Bound,
        |
            {
                &&& #[trigger] call_ensures(C::now, (clock,), now)
                &&& call_ensures(
                    V::verify_signature,
                    (verifier, manifest_bytes, now),
                    Ok(signed),
                )
                &&& #[trigger] call_ensures(V::verify_canary, (verifier, signed, now), Ok(checked))
                &&& #[trigger] call_ensures(
                    V::verify_origin,
                    (verifier, checked.stage, fetched_address, now),
                    Ok(bound),
                )
                &&& call_ensures(
                    V::verify_content_index,
                    (verifier, bound, content_index_bytes),
                    Ok(verified.content_index),
                )
                &&& checked.manifest == verified.manifest
                &&& checked.canary_state == verified.canary_state
            },
        history::history_verdict(verified.manifest, history@) is None,
{
    let outcome = Outcome::Accept(verified);
    let now = choose|now: EntangledTimestamp|
        #[trigger] call_ensures(C::now, (clock,), now) && signature_stage(
            verifier,
            manifest_bytes,
            fetched_address,
            now,
            content_index_bytes,
            history@,
            outcome,
        );
    let (signed, checked, bound) = lemma_accepted_stages(
        verifier,
        manifest_bytes,
        fetched_address,
        now,
        content_index_bytes,
        history@,
        verified,
    );
    assert(call_ensures(C::now, (clock,), now));
    assert(call_ensures(V::verify_canary, (verifier, signed, now), Ok(checked)));
    assert(call_ensures(
        V::verify_origin,
        (verifier, checked.stage, fetched_address, now),
        Ok(bound),
    ));
}

/// What the stages of an accepted manifest passed on.
pub proof fn lemma_accepted_stages<V: Verifier>(
    verifier: &V,
    manifest_bytes: &[u8],
    fetched_address: &OnionAddress,
    now: EntangledTimestamp,
    content_index_bytes: Option<&[u8]>,
    history: Seq<RetainedManifestRecord>,
    verified: VerifiedManifest<V::Index>,
) -> (stages: (V::Signed, CanaryChecked<V::Checked>, V::Bound))
    requires
        signature_stage(
            verifier,
            manifest_bytes,
            fetched_address,
            now,
            content_index_bytes,
            history,
            Outcome::Accept(verified),
        ),
    ensures
        call_ensures(V::verify_signature, (verifier, manifest_bytes, now), Ok(stages.0)),
        call_ensures(V::verify_canary, (verifier, stages.0, now), Ok(stages.1)),
        call_ensures(
            V::verify_origin,
            (verifier, stages.1.stage, fetched_address, now),
            Ok(stages.2),
        ),
        call_ensures(
            V::verify_content_index,
            (verifier, stages.2, content_index_bytes),
            Ok(verified.content_index),
        ),
        stages.1.manifest == verified.manifest,
        stages.1.canary_state == verified.canary_state,
        history::history_verdict(verified.manifest, history) is None,
{
    let outcome = Outcome::Accept(verified);
    let signed = choose|result: Result<V::Signed, Diagnostic>|
        {
            &&& #[trigger] call_ensures(
                V::verify_signature,
                (verifier, manifest_bytes, now),
                result,
            )
            &&& result matches Ok(signed)
            &&& canary_stage(
                verifier,
                signed,
                fetched_address,
                now,
                content_index_bytes,
                history,
                outcome,
            )
        };
    let checked = choose|result: Result<CanaryChecked<V::Checked>, Diagnostic>|
        {
            &&& #[trigger] call_ensures(V::verify_canary, (verifier, signed->Ok_0, now), result)
            &&& result matches Ok(checked)
            &&& history_stage(
                verifier,
                checked,
                fetched_address,
                now,
                content_index_bytes,
                history,
                outcome,
            )
        };
    let bound = choose|result: Result<V::Bound, Diagnostic>|
        {
            &&& #[trigger] call_ensures(
                V::verify_origin,
                (verifier, checked->Ok_0.stage, fetched_address, now),
                result,
            )
            &&& result matches Ok(bound)
            &&& index_stage(
                verifier,
                checked->Ok_0.manifest,
                checked->Ok_0.canary_state,
                bound,
                content_index_bytes,
                outcome,
            )
        };
    (signed->Ok_0, checked->Ok_0, bound->Ok_0)
}

/// A rejection is the first failure: the diagnostic is that of a stage that
/// failed, and every stage before it passed. The history checks stand between
/// the canary and the origin.
pub proof fn law_rejection_is_the_first_failure<C: Clock, V: Verifier>(
    manifest_bytes: &[u8],
    fetched_address: &OnionAddress,
    content_index_bytes: Option<&[u8]>,
    clock: &C,
    history: &PublisherHistory,
    verifier: &V,
    diagnostic: Diagnostic,
)
    requires
        call_ensures(
            verify_manifest::<C, V>,
            (manifest_bytes, fetched_address, content_index_bytes, clock, history, verifier),
            Outcome::<VerifiedManifest<V::Index>>::Reject(diagnostic),
        ),
    ensures
        exists|now: EntangledTimestamp|
            {
                &&& #[trigger] call_ensures(C::now, (clock,), now)
                &&& {
                    ||| call_ensures(
                        V::verify_signature,
                        (verifier, manifest_bytes, now),
                        Err(diagnostic),
                    )
                    ||| exists|signed: V::Signed|
                        {
                            &&& #[trigger] call_ensures(
                                V::verify_signature,
                                (verifier, manifest_bytes, now),
                                Ok(signed),
                            )
                            &&& call_ensures(
                                V::verify_canary,
                                (verifier, signed, now),
                                Err(diagnostic),
                            )
                        }
                    ||| exists|signed: V::Signed, checked: CanaryChecked<V::Checked>|
                        {
                            &&& call_ensures(
                                V::verify_signature,
                                (verifier, manifest_bytes, now),
                                Ok(signed),
                            )
                            &&& #[trigger] call_ensures(
                                V::verify_canary,
                                (verifier, signed, now),
                                Ok(checked),
                            )
                            &&& match history::history_verdict(checked.manifest, history@) {
                                Some(code) => diagnostic.code == code,
                                None => {
                                    ||| call_ensures(
                                        V::verify_origin,
                                        (verifier, checked.stage, fetched_address, now),
                                        Err(diagnostic),
                                    )
                                    ||| exists|bound: V::Bound|
                                        {
                                            &&& #[trigger] call_ensures(
                                                V::verify_origin,
                                                (verifier, checked.stage, fetched_address, now),
                                                Ok(bound),
                                            )
                                            &&& call_ensures(
                                                V::verify_content_index,
                                                (verifier, bound, content_index_bytes),
                                                Err(diagnostic),
                                            )
                                        }
                                },
                            }
                        }
                }
            },
{
    let outcome = Outcome::<VerifiedManifest<V::Index>>::Reject(diagnostic);
    let now = choose|now: EntangledTimestamp|
        #[trigger] call_ensures(C::now, (clock,), now) && signature_stage(
            verifier,
            manifest_bytes,
            fetched_address,
            now,
            content_index_bytes,
            history@,
            outcome,
        );
    assert(call_ensures(C::now, (clock,), now));
    let signature = choose|result: Result<V::Signed, Diagnostic>|
        {
            &&& #[trigger] call_ensures(
                V::verify_signature,
                (verifier, manifest_bytes, now),
                result,
            )
            &&& match result {
                Ok(signed) => canary_stage(
                    verifier,
                    signed,
                    fetched_address,
                    now,
                    content_index_bytes,
                    history@,
                    outcome,
                ),
                Err(d) => outcome == Outcome::<VerifiedManifest<V::Index>>::Reject(d),
            }
        };
    if let Ok(signed) = signature {
        assert(call_ensures(V::verify_signature, (verifier, manifest_bytes, now), Ok(signed)));
        let canary = choose|result: Result<CanaryChecked<V::Checked>, Diagnostic>|
            {
                &&& #[trigger] call_ensures(V::verify_canary, (verifier, signed, now), result)
                &&& match result {
                    Ok(checked) => history_stage(
                        verifier,
                        checked,
                        fetched_address,
                        now,
                        content_index_bytes,
                        history@,
                        outcome,
                    ),
                    Err(d) => outcome == Outcome::<VerifiedManifest<V::Index>>::Reject(d),
                }
            };
        if let Ok(checked) = canary {
            assert(call_ensures(V::verify_canary, (verifier, signed, now), Ok(checked)));
            if history::history_verdict(checked.manifest, history@) is None {
                let origin = choose|result: Result<V::Bound, Diagnostic>|
                    {
                        &&& #[trigger] call_ensures(
                            V::verify_origin,
                            (verifier, checked.stage, fetched_address, now),
                            result,
                        )
                        &&& match result {
                            Ok(bound) => index_stage(
                                verifier,
                                checked.manifest,
                                checked.canary_state,
                                bound,
                                content_index_bytes,
                                outcome,
                            ),
                            Err(d) => outcome == Outcome::<VerifiedManifest<V::Index>>::Reject(d),
                        }
                    };
                if let Ok(bound) = origin {
                    assert(call_ensures(
                        V::verify_origin,
                        (verifier, checked.stage, fetched_address, now),
                        Ok(bound),
                    ));
                }
            }
        }
    }
}

/// A content document is accepted, or rejected, as the verifier finds it under
/// the runtime key of the manifest.
pub proof fn law_content_verdict_is_the_verifiers<V: Verifier>(
    content_bytes: &[u8],
    manifest: &VerifiedManifest<V::Index>,
    verifier: &V,
    outcome: Outcome<V::Document>,
)
    requires
        call_ensures(verify_content::<V>, (content_bytes, manifest, verifier), outcome),
    ensures
        match outcome {
            Outcome::Accept(document) => call_ensures(
                V::verify_document,
                (verifier, content_bytes, &manifest.manifest.canary.runtime_pubkey),
                Ok(document),
            ),
            Outcome::Reject(diagnostic) => call_ensures(
                V::verify_document,
                (verifier, content_bytes, &manifest.manifest.canary.runtime_pubkey),
                Err(diagnostic),
            ),
        },
{
}

/// An outcome is accepted exactly where it gives no diagnostic, and gives the
/// diagnostic it was rejected with.
pub proof fn law_outcome_is_accepted_or_explained<T>(
    outcome: Outcome<T>,
    accepted: bool,
    diagnostic: Option<&Diagnostic>,
)
    requires
        call_ensures(Outcome::<T>::is_accepted, (&outcome,), accepted),
        call_ensures(Outcome::<T>::diagnostic, (&outcome,), diagnostic),
    ensures
        accepted <==> diagnostic is None,
        accepted <==> outcome is Accept,
        outcome matches Outcome::Reject(d) ==> diagnostic == Some(&d),
{
}

} // verus!
