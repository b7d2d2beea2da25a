//! The chrome model: what the client's always-visible interface must show.
//!
//! A [`ChromeView`] is a pure description. It assigns no colors and uses no
//! toolkit; the shell maps it to widgets.
use crate::protocol::CanaryState;
use crate::trust::TrustState;
use vstd::prelude::*;

verus! {

/// The label beside the identity phrase. It names a public identity, and is
/// never a term for a secret.
pub const PIP_LABEL: &'static str = "publisher identity phrase";

/// The observed, unresolved conditions that drive the conditional warnings.
#[derive(Clone, Copy, Debug, PartialEq, Eq, Structural)]
pub struct ChromeConditions {
    /// A canary conflict was observed and is not resolved.
    pub canary_conflict: bool,
    /// A canary gap was observed and not dismissed.
    pub canary_gap: bool,
    /// Historical content is being rendered.
    pub historical_content: bool,
    /// Cached content is shown while the live canary state is unavailable.
    pub stale_cached: bool,
    /// Stored request state will be sent with future submits.
    pub request_state_active: bool,
}

impl Default for ChromeConditions {
    fn default() -> (conditions: ChromeConditions)
        ensures
            conditions == no_conditions(),
    {
        ChromeConditions {
            canary_conflict: false,
            canary_gap: false,
            historical_content: false,
            stale_cached: false,
            request_state_active: false,
        }
    }
}

/// No condition holds.
pub open spec fn no_conditions() -> ChromeConditions {
    ChromeConditions {
        canary_conflict: false,
        canary_gap: false,
        historical_content: false,
        stale_cached: false,
        request_state_active: false,
    }
}

/// A prominent warning, shown only while its condition holds.
#[derive(Clone, Copy, Debug, PartialEq, Eq, Structural)]
pub enum Warning {
    /// The publisher's key changed.
    TrustMismatch,
    /// An unresolved canary conflict.
    CanaryConflict,
    /// The canary is expired.
    CanaryExpired,
    /// The canary is structurally invalid.
    CanaryInvalid,
    /// A canary gap that was not dismissed.
    CanaryGap,
    /// Historical content is being rendered.
    HistoricalContent,
    /// Stale cached content is shown.
    StaleCachedContent,
}

/// What the chrome shows.
#[derive(Clone, Debug, PartialEq, Eq)]
pub struct ChromeView {
    /// The publisher trust state.
    pub trust_state: TrustState,
    /// A compact form of the carrier address.
    pub carrier_address_compact: String,
    /// The canary state.
    pub canary_state: CanaryState,
    /// The label beside the identity phrase.
    pub pip_label: &'static str,
    /// The complete publisher identity phrase, never truncated.
    pub pip: String,
    /// Whether the phrase must be shown in full rather than behind a
    /// disclosure: while the user is asked to verify the identity.
    pub pip_must_be_fully_shown: bool,
    /// The warnings in effect, identity first.
    pub warnings: Vec<Warning>,
    /// Whether the request-state indicator is shown.
    pub request_state_active: bool,
}

/// Whether the condition of a warning holds.
pub open spec fn warning_holds(
    warning: Warning,
    trust_state: TrustState,
    canary_state: CanaryState,
    conditions: ChromeConditions,
) -> bool {
    match warning {
        Warning::TrustMismatch => trust_state == TrustState::ChangedMismatch,
        Warning::CanaryConflict => conditions.canary_conflict,
        Warning::CanaryExpired => canary_state == CanaryState::Expired,
        Warning::CanaryInvalid => canary_state == CanaryState::Invalid,
        Warning::CanaryGap => conditions.canary_gap,
        Warning::HistoricalContent => conditions.historical_content,
        Warning::StaleCachedContent => conditions.stale_cached,
    }
}

/// Every warning, most identity-critical first.
pub open spec fn all_warnings() -> Seq<Warning> {
    seq![
        Warning::TrustMismatch,
        Warning::CanaryConflict,
        Warning::CanaryExpired,
        Warning::CanaryInvalid,
        Warning::CanaryGap,
        Warning::HistoricalContent,
        Warning::StaleCachedContent,
    ]
}

/// Those of the first `n` warnings whose condition holds, in order.
pub open spec fn first_warnings(
    n: nat,
    trust_state: TrustState,
    canary_state: CanaryState,
    conditions: ChromeConditions,
) -> Seq<Warning>
    decreases n,
{
    if n == 0 {
        seq![]
    } else {
        let before = first_warnings((n - 1) as nat, trust_state, canary_state, conditions);
        let warning = all_warnings()[n - 1];
        if warning_holds(warning, trust_state, canary_state, conditions) {
            before.push(warning)
        } else {
            before
        }
    }
}

/// The warnings whose condition holds, in order.
pub open spec fn warnings_for(
    trust_state: TrustState,
    canary_state: CanaryState,
    conditions: ChromeConditions,
) -> Seq<Warning> {
    first_warnings(7, trust_state, canary_state, conditions)
}

/// Whether the user is being asked to verify the identity.
pub open spec fn identity_in_question(trust_state: TrustState) -> bool {
    trust_state == TrustState::FirstContact || trust_state == TrustState::ChangedMismatch
}

impl ChromeView {
    /// This view shows `pip` and `address` for these states and conditions.
    pub open spec fn shows(
        &self,
        pip: Seq<char>,
        trust_state: TrustState,
        canary_state: CanaryState,
        address: Seq<char>,
        conditions: ChromeConditions,
    ) -> bool {
        &&& self.trust_state == trust_state
        &&& self.carrier_address_compact@ == address
        &&& self.canary_state == canary_state
        &&& self.pip_label@ == "publisher identity phrase"@
        &&& self.pip@ == pip
        &&& self.pip_must_be_fully_shown == identity_in_question(trust_state)
        &&& self.warnings@ == warnings_for(trust_state, canary_state, conditions)
        &&& self.request_state_active == conditions.request_state_active
    }

    /// The chrome for a publisher whose identity phrase is `pip`.
    ///
    /// The compact carrier address is shown as it is given: the shell decides
    /// how to abbreviate it.
    pub fn build(
        pip: String,
        trust_state: TrustState,
        canary_state: CanaryState,
        carrier_address_compact: String,
        conditions: ChromeConditions,
    ) -> (view: ChromeView)
        ensures
            view.shows(pip@, trust_state, canary_state, carrier_address_compact@, conditions),
    {
        proof {
            reveal_with_fuel(first_warnings, 8);
        }
        let mut warnings: Vec<Warning> = Vec::new();
        if trust_state == TrustState::ChangedMismatch {
            warnings.push(Warning::TrustMismatch);
        }
        if conditions.canary_conflict {
            warnings.push(Warning::CanaryConflict);
        }
        match canary_state {
            CanaryState::Expired => warnings.push(Warning::CanaryExpired),
            CanaryState::Invalid => warnings.push(Warning::CanaryInvalid),
            _ => {},
        }
        if conditions.canary_gap {
            warnings.push(Warning::CanaryGap);
        }
        if conditions.historical_content {
            warnings.push(Warning::HistoricalContent);
        }
        if conditions.stale_cached {
            warnings.push(Warning::StaleCachedContent);
        }
        let in_question = trust_state == TrustState::FirstContact || trust_state
            == TrustState::ChangedMismatch;
        ChromeView {
            trust_state,
            carrier_address_compact,
            canary_state,
            pip_label: PIP_LABEL,
            pip,
            pip_must_be_fully_shown: in_question,
            warnings,
            request_state_active: conditions.request_state_active,
        }
    }
}

proof fn lemma_first_warnings(
    n: nat,
    trust_state: TrustState,
    canary_state: CanaryState,
    conditions: ChromeConditions,
    warning: Warning,
)
    requires
        n <= 7,
    ensures
        first_warnings(n, trust_state, canary_state, conditions).contains(warning) <==> (exists|
            i: int,
        |
            0 <= i < n && #[trigger] all_warnings()[i] == warning) && warning_holds(
            warning,
            trust_state,
            canary_state,
            conditions,
        ),
    decreases n,
{
    let shown = first_warnings(n, trust_state, canary_state, conditions);
    if n > 0 {
        let m = (n - 1) as nat;
        lemma_first_warnings(m, trust_state, canary_state, conditions, warning);
        let before = first_warnings(m, trust_state, canary_state, conditions);
        let last = all_warnings()[n - 1];
        if warning_holds(last, trust_state, canary_state, conditions) {
            assert(shown == before.push(last));
            assert(shown[before.len() as int] == last);
            if before.contains(warning) {
                let i = choose|i: int| 0 <= i < before.len() && before[i] == warning;
                assert(shown[i] == warning);
            }
            if shown.contains(warning) && warning != last {
                let i = choose|i: int| 0 <= i < shown.len() && shown[i] == warning;
                assert(before[i] == warning);
            }
        }
    }
}

/// A warning is shown exactly while its condition holds.
pub proof fn law_warning_shown_iff_it_holds(
    trust_state: TrustState,
    canary_state: CanaryState,
    conditions: ChromeConditions,
    warning: Warning,
)
    ensures
        warnings_for(trust_state, canary_state, conditions).contains(warning) <==> warning_holds(
            warning,
            trust_state,
            canary_state,
            conditions,
        ),
{
    lemma_first_warnings(7, trust_state, canary_state, conditions, warning);
    let i = match warning {
        Warning::TrustMismatch => 0int,
        Warning::CanaryConflict => 1,
        Warning::CanaryExpired => 2,
        Warning::CanaryInvalid => 3,
        Warning::CanaryGap => 4,
        Warning::HistoricalContent => 5,
        Warning::StaleCachedContent => 6,
    };
    assert(all_warnings()[i] == warning);
}

/// A mismatch warning always comes first.
pub proof fn law_mismatch_warning_comes_first(
    canary_state: CanaryState,
    conditions: ChromeConditions,
)
    ensures
        warnings_for(TrustState::ChangedMismatch, canary_state, conditions).len() > 0,
        warnings_for(TrustState::ChangedMismatch, canary_state, conditions)[0]
            == Warning::TrustMismatch,
{
    reveal_with_fuel(first_warnings, 8);
}

/// How pressing a warning is: identity first, then the canary, then what content
/// is shown.
spec fn pressing(warning: Warning) -> int {
    match warning {
        Warning::TrustMismatch => 0,
        Warning::CanaryConflict => 1,
        Warning::CanaryExpired => 2,
        Warning::CanaryInvalid => 3,
        Warning::CanaryGap => 4,
        Warning::HistoricalContent => 5,
        Warning::StaleCachedContent => 6,
    }
}

proof fn lemma_first_warnings_are_ordered(
    n: nat,
    trust_state: TrustState,
    canary_state: CanaryState,
    conditions: ChromeConditions,
)
    requires
        n <= 7,
    ensures
        ({
            let shown = first_warnings(n, trust_state, canary_state, conditions);
            &&& forall|i: int| 0 <= i < shown.len() ==> pressing(#[trigger] shown[i]) < n
            &&& forall|i: int, j: int|
                0 <= i < j < shown.len() ==> pressing(#[trigger] shown[i]) < pressing(
                    #[trigger] shown[j],
                )
        }),
    decreases n,
{
    if n > 0 {
        lemma_first_warnings_are_ordered((n - 1) as nat, trust_state, canary_state, conditions);
        let before = first_warnings((n - 1) as nat, trust_state, canary_state, conditions);
        let shown = first_warnings(n, trust_state, canary_state, conditions);
        assert(pressing(all_warnings()[n - 1]) == n - 1);
        assert forall|i: int| 0 <= i < shown.len() implies pressing(#[trigger] shown[i]) < n by {
            if i < before.len() {
                assert(shown[i] == before[i]);
            }
        }
        assert forall|i: int, j: int| 0 <= i < j < shown.len() implies pressing(
            #[trigger] shown[i],
        ) < pressing(#[trigger] shown[j]) by {
            assert(shown[i] == before[i]);
            if j < before.len() {
                assert(shown[j] == before[j]);
            }
        }
    }
}

/// Each warning is shown exactly while it is called for: a changed key, an
/// observed conflict, an expired canary, an invalid canary, an observed gap,
/// historical content, stale content. None calls for another.
pub proof fn law_each_warning_has_its_cause(
    pip: String,
    trust_state: TrustState,
    canary_state: CanaryState,
    address: String,
    conditions: ChromeConditions,
    view: ChromeView,
)
    requires
        call_ensures(
            ChromeView::build,
            (pip, trust_state, canary_state, address, conditions),
            view,
        ),
    ensures
        view.warnings@.contains(Warning::TrustMismatch) <==> trust_state
            == TrustState::ChangedMismatch,
        view.warnings@.contains(Warning::CanaryConflict) <==> conditions.canary_conflict,
        view.warnings@.contains(Warning::CanaryExpired) <==> canary_state == CanaryState::Expired,
        view.warnings@.contains(Warning::CanaryInvalid) <==> canary_state == CanaryState::Invalid,
        view.warnings@.contains(Warning::CanaryGap) <==> conditions.canary_gap,
        view.warnings@.contains(Warning::HistoricalContent) <==> conditions.historical_content,
        view.warnings@.contains(Warning::StaleCachedContent) <==> conditions.stale_cached,
{
    law_warning_shown_iff_it_holds(trust_state, canary_state, conditions, Warning::TrustMismatch);
    law_warning_shown_iff_it_holds(trust_state, canary_state, conditions, Warning::CanaryConflict);
    law_warning_shown_iff_it_holds(trust_state, canary_state, conditions, Warning::CanaryExpired);
    law_warning_shown_iff_it_holds(trust_state, canary_state, conditions, Warning::CanaryInvalid);
    law_warning_shown_iff_it_holds(trust_state, canary_state, conditions, Warning::CanaryGap);
    law_warning_shown_iff_it_holds(
        trust_state,
        canary_state,
        conditions,
        Warning::HistoricalContent,
    );
    law_warning_shown_iff_it_holds(
        trust_state,
        canary_state,
        conditions,
        Warning::StaleCachedContent,
    );
}

/// The more pressing warning stands before the less pressing one, and none
/// stands twice.
pub proof fn law_warnings_are_ordered(
    pip: String,
    trust_state: TrustState,
    canary_state: CanaryState,
    address: String,
    conditions: ChromeConditions,
    view: ChromeView,
    i: int,
    j: int,
)
    requires
        call_ensures(
            ChromeView::build,
            (pip, trust_state, canary_state, address, conditions),
            view,
        ),
        0 <= i < j < view.warnings@.len(),
    ensures
        view.warnings@[i] != view.warnings@[j],
        view.warnings@[j] != Warning::TrustMismatch,
        view.warnings@[j] == Warning::CanaryConflict ==> view.warnings@[i]
            == Warning::TrustMismatch,
        view.warnings@[i] == Warning::CanaryGap ==> view.warnings@[j] == Warning::HistoricalContent
            || view.warnings@[j] == Warning::StaleCachedContent,
        view.warnings@[i] == Warning::HistoricalContent ==> view.warnings@[j]
            == Warning::StaleCachedContent,
        view.warnings@[i] != Warning::StaleCachedContent,
{
    lemma_first_warnings_are_ordered(7, trust_state, canary_state, conditions);
    assert(pressing(view.warnings@[i]) < pressing(view.warnings@[j]));
    assert(pressing(view.warnings@[j]) <= 6);
}

/// The chrome shows what it is given: the states, the address and the whole
/// phrase as they are, the phrase under its public name and in full exactly
/// while the identity is in question, the request state exactly while it is
/// active.
pub proof fn law_chrome_shows_what_it_is_given(
    pip: String,
    trust_state: TrustState,
    canary_state: CanaryState,
    address: String,
    conditions: ChromeConditions,
    view: ChromeView,
)
    requires
        call_ensures(
            ChromeView::build,
            (pip, trust_state, canary_state, address, conditions),
            view,
        ),
    ensures
        view.trust_state == trust_state,
        view.canary_state == canary_state,
        view.carrier_address_compact@ == address@,
        view.pip@ == pip@,
        view.pip_label@ == "publisher identity phrase"@,
        view.request_state_active <==> conditions.request_state_active,
        view.pip_must_be_fully_shown <==> trust_state != TrustState::TofuPinned && trust_state
            != TrustState::ExternallyVerified,
{
}

/// By default no condition holds.
pub proof fn law_no_condition_by_default(conditions: ChromeConditions)
    requires
        call_ensures(ChromeConditions::default, (), conditions),
    ensures
        !conditions.canary_conflict,
        !conditions.canary_gap,
        !conditions.historical_content,
        !conditions.stale_cached,
        !conditions.request_state_active,
{
}

} // verus!
