//! The viewer's decisions: badges, banners, the handoff dialog, and what a
//! session may show.
//!
//! Everything here is plain data. The shell draws it.
use crate::chrome::{ChromeView, Warning};
use crate::protocol::CanaryState;
use crate::scene::{Handoff, HandoffKind};
use crate::text::{isolate, joined};
use crate::trust::TrustState;
use vstd::prelude::*;

verus! {

/// How grave a badge or banner is.
#[derive(Clone, Copy, Debug, PartialEq, Eq, Structural)]
pub enum Severity {
    /// All is well.
    Good,
    /// Take care.
    Caution,
    /// Something is wrong.
    Alert,
    /// Neither.
    Neutral,
}

/// A color.
#[derive(Clone, Copy, Debug, PartialEq, Eq, Structural)]
pub struct Rgb {
    /// Red.
    pub r: u8,
    /// Green.
    pub g: u8,
    /// Blue.
    pub b: u8,
}

/// A color of three components.
pub open spec fn rgb(r: u8, g: u8, b: u8) -> Rgb {
    Rgb { r, g, b }
}

impl Severity {
    /// The text and fill colors of a pill.
    pub open spec fn pill(self) -> (Rgb, Rgb) {
        match self {
            Severity::Good => (rgb(0xB6, 0xF0, 0xC4), rgb(0x1c, 0x3a, 0x28)),
            Severity::Caution => (rgb(0xF2, 0xDC, 0xA0), rgb(0x3c, 0x30, 0x12)),
            Severity::Alert => (rgb(0xF6, 0xC0, 0xC0), rgb(0x40, 0x1c, 0x1c)),
            Severity::Neutral => (rgb(0xC4, 0xCC, 0xD6), rgb(0x24, 0x2b, 0x36)),
        }
    }

    /// The color of borders and dots.
    pub open spec fn edge(self) -> Rgb {
        match self {
            Severity::Good => rgb(0x4c, 0xc0, 0x6a),
            Severity::Caution => rgb(0xd0, 0xa0, 0x30),
            Severity::Alert => rgb(0xe0, 0x50, 0x50),
            Severity::Neutral => rgb(0x90, 0x98, 0xa4),
        }
    }

    /// The text and fill colors of a pill.
    pub fn pill_colors(self) -> (colors: (Rgb, Rgb))
        ensures
            colors == self.pill(),
    {
        match self {
            Severity::Good => (
                Rgb { r: 0xB6, g: 0xF0, b: 0xC4 },
                Rgb { r: 0x1c, g: 0x3a, b: 0x28 },
            ),
            Severity::Caution => (
                Rgb { r: 0xF2, g: 0xDC, b: 0xA0 },
                Rgb { r: 0x3c, g: 0x30, b: 0x12 },
            ),
            Severity::Alert => (
                Rgb { r: 0xF6, g: 0xC0, b: 0xC0 },
                Rgb { r: 0x40, g: 0x1c, b: 0x1c },
            ),
            Severity::Neutral => (
                Rgb { r: 0xC4, g: 0xCC, b: 0xD6 },
                Rgb { r: 0x24, g: 0x2b, b: 0x36 },
            ),
        }
    }

    /// The color of borders and dots.
    pub fn accent(self) -> (color: Rgb)
        ensures
            color == self.edge(),
    {
        match self {
            Severity::Good => Rgb { r: 0x4c, g: 0xc0, b: 0x6a },
            Severity::Caution => Rgb { r: 0xd0, g: 0xa0, b: 0x30 },
            Severity::Alert => Rgb { r: 0xe0, g: 0x50, b: 0x50 },
            Severity::Neutral => Rgb { r: 0x90, g: 0x98, b: 0xa4 },
        }
    }
}

/// The badge of a trust state.
pub open spec fn trust_label(state: TrustState) -> (Seq<char>, Severity) {
    match state {
        TrustState::ExternallyVerified => ("externally verified"@, Severity::Good),
        TrustState::TofuPinned => ("TOFU pinned"@, Severity::Good),
        TrustState::FirstContact => ("first contact"@, Severity::Caution),
        TrustState::ChangedMismatch => ("CHANGED / MISMATCH"@, Severity::Alert),
    }
}

/// The badge of a trust state.
pub fn trust_badge(state: TrustState) -> (badge: (&'static str, Severity))
    ensures
        (badge.0@, badge.1) == trust_label(state),
{
    match state {
        TrustState::ExternallyVerified => ("externally verified", Severity::Good),
        TrustState::TofuPinned => ("TOFU pinned", Severity::Good),
        TrustState::FirstContact => ("first contact", Severity::Caution),
        TrustState::ChangedMismatch => ("CHANGED / MISMATCH", Severity::Alert),
    }
}

/// The badge of a canary state.
pub open spec fn canary_label(state: CanaryState) -> (Seq<char>, Severity) {
    match state {
        CanaryState::Fresh => ("fresh"@, Severity::Good),
        CanaryState::NearExpiration => ("near expiration"@, Severity::Caution),
        CanaryState::Expired => ("expired"@, Severity::Alert),
        CanaryState::Invalid => ("invalid"@, Severity::Alert),
        CanaryState::Unavailable => ("unavailable"@, Severity::Neutral),
    }
}

/// The badge of a canary state.
pub fn canary_badge(state: CanaryState) -> (badge: (&'static str, Severity))
    ensures
        (badge.0@, badge.1) == canary_label(state),
{
    match state {
        CanaryState::Fresh => ("fresh", Severity::Good),
        CanaryState::NearExpiration => ("near expiration", Severity::Caution),
        CanaryState::Expired => ("expired", Severity::Alert),
        CanaryState::Invalid => ("invalid", Severity::Alert),
        CanaryState::Unavailable => ("unavailable", Severity::Neutral),
    }
}

/// A status pill of the chrome.
#[derive(Clone, Copy, Debug)]
pub struct Pill {
    /// What it is about.
    pub category: &'static str,
    /// What it says.
    pub value: &'static str,
    /// How grave that is.
    pub severity: Severity,
}

/// A pill's category, value and severity.
pub open spec fn pill_view(pill: Pill) -> (Seq<char>, Seq<char>, Severity) {
    (pill.category@, pill.value@, pill.severity)
}

/// The pills of the chrome: trust and canary always, the request state while it
/// is active.
pub open spec fn pills_of(chrome: ChromeView) -> Seq<(Seq<char>, Seq<char>, Severity)> {
    let (trust, trust_severity) = trust_label(chrome.trust_state);
    let (canary, canary_severity) = canary_label(chrome.canary_state);
    let always = seq![("TRUST"@, trust, trust_severity), ("CANARY"@, canary, canary_severity)];
    if chrome.request_state_active {
        always.push(("REQUEST"@, "active"@, Severity::Caution))
    } else {
        always
    }
}

/// The pills of the chrome.
pub fn chrome_pills(chrome: &ChromeView) -> (pills: Vec<Pill>)
    ensures
        pills@.map_values(|p: Pill| pill_view(p)) == pills_of(*chrome),
{
    let (trust, trust_severity) = trust_badge(chrome.trust_state);
    let (canary, canary_severity) = canary_badge(chrome.canary_state);
    let mut pills: Vec<Pill> = Vec::new();
    pills.push(Pill { category: "TRUST", value: trust, severity: trust_severity });
    pills.push(Pill { category: "CANARY", value: canary, severity: canary_severity });
    if chrome.request_state_active {
        pills.push(Pill { category: "REQUEST", value: "active", severity: Severity::Caution });
    }
    assert(pills@.map_values(|p: Pill| pill_view(p)) =~= pills_of(*chrome));
    pills
}

/// The heading of the identity section.
pub fn pip_heading(chrome: &ChromeView) -> (text: String)
    ensures
        text@ == chrome.pip_label@ + " (PIP)"@,
{
    joined(chrome.pip_label, " (PIP)")
}

/// A warning's banner: its glyph, its text and its severity.
pub open spec fn banner_of(warning: Warning) -> (Seq<char>, Seq<char>, Severity) {
    match warning {
        Warning::TrustMismatch => (
            "\u{26A0}"@,
            "Publisher identity changed / mismatch"@,
            Severity::Alert,
        ),
        Warning::CanaryConflict => ("\u{26A0}"@, "Canary conflict"@, Severity::Alert),
        Warning::CanaryExpired => ("\u{26A0}"@, "Canary expired"@, Severity::Alert),
        Warning::CanaryInvalid => ("\u{26A0}"@, "Canary invalid"@, Severity::Alert),
        Warning::CanaryGap => ("\u{26A0}"@, "Canary gap observed"@, Severity::Caution),
        Warning::HistoricalContent => ("\u{1F552}"@, "Historical content"@, Severity::Caution),
        Warning::StaleCachedContent => ("\u{1F552}"@, "Stale cached content"@, Severity::Caution),
    }
}

/// A warning's banner: its glyph, its text and its severity.
pub fn warning_banner(warning: Warning) -> (banner: (&'static str, &'static str, Severity))
    ensures
        (banner.0@, banner.1@, banner.2) == banner_of(warning),
{
    match warning {
        Warning::TrustMismatch => (
            "\u{26A0}",
            "Publisher identity changed / mismatch",
            Severity::Alert,
        ),
        Warning::CanaryConflict => ("\u{26A0}", "Canary conflict", Severity::Alert),
        Warning::CanaryExpired => ("\u{26A0}", "Canary expired", Severity::Alert),
        Warning::CanaryInvalid => ("\u{26A0}", "Canary invalid", Severity::Alert),
        Warning::CanaryGap => ("\u{26A0}", "Canary gap observed", Severity::Caution),
        Warning::HistoricalContent => ("\u{1F552}", "Historical content", Severity::Caution),
        Warning::StaleCachedContent => ("\u{1F552}", "Stale cached content", Severity::Caution),
    }
}

/// The tag that tells an external link's kind apart.
pub open spec fn tag_of(kind: HandoffKind) -> Seq<char> {
    match kind {
        HandoffKind::Carrier => " [carrier \u{2197}]"@,
        HandoffKind::Citation => " [clearnet \u{2197}]"@,
    }
}

/// The tag that tells an external link's kind apart.
pub fn handoff_tag(kind: HandoffKind) -> (tag: &'static str)
    ensures
        tag@ == tag_of(kind),
{
    match kind {
        HandoffKind::Carrier => " [carrier \u{2197}]",
        HandoffKind::Citation => " [clearnet \u{2197}]",
    }
}

/// The title of the handoff dialog.
pub open spec fn title_of(kind: HandoffKind) -> Seq<char> {
    match kind {
        HandoffKind::Carrier => "Open carrier link?"@,
        HandoffKind::Citation => "Open clearnet link?"@,
    }
}

/// What the handoff dialog says of the boundary. A carrier link is never said
/// to leave for the open network.
pub open spec fn notice_of(kind: HandoffKind) -> Seq<char> {
    match kind {
        HandoffKind::Carrier => "This link points outside Entangled to a service reachable over the carrier (Tor), not the clearnet. It is not auto-opened: copying it lets you open it in a carrier-aware browser (such as Tor Browser). Do not open it in a browser that would resolve the host over public DNS or the clearnet, which would leak the request and defeat the carrier's confidentiality."@,
        HandoffKind::Citation => "This link leaves Entangled for the clearnet. Opening or copying it transmits the URL outside the carrier; the destination and any in-path observer on the clearnet may learn it was reached from here."@,
    }
}

/// The handoff dialog.
#[derive(Clone, Debug)]
pub struct HandoffDialog {
    /// Its title.
    pub title: &'static str,
    /// The notice on the boundary.
    pub notice: &'static str,
    /// The destination as it is shown.
    pub shown_url: String,
    /// The destination as it is copied.
    pub url: String,
}

/// The dialog for a handoff. The destination is shown isolated and copied as it
/// is; it is never opened.
pub fn handoff_dialog(handoff: &Handoff) -> (dialog: HandoffDialog)
    ensures
        dialog.title@ == title_of(handoff.kind),
        dialog.notice@ == notice_of(handoff.kind),
        dialog.shown_url@ == crate::text::isolated(handoff.url@),
        dialog.url@ == handoff.url@,
{
    let (title, notice): (&'static str, &'static str) = match handoff.kind {
        HandoffKind::Carrier => (
            "Open carrier link?",
            "This link points outside Entangled to a service reachable over the carrier (Tor), not the clearnet. It is not auto-opened: copying it lets you open it in a carrier-aware browser (such as Tor Browser). Do not open it in a browser that would resolve the host over public DNS or the clearnet, which would leak the request and defeat the carrier's confidentiality.",
        ),
        HandoffKind::Citation => (
            "Open clearnet link?",
            "This link leaves Entangled for the clearnet. Opening or copying it transmits the URL outside the carrier; the destination and any in-path observer on the clearnet may learn it was reached from here.",
        ),
    };
    HandoffDialog {
        title,
        notice,
        shown_url: isolate(handoff.url.as_str()),
        url: handoff.url.clone(),
    }
}

/// Whether publisher content must be blocked: while the canary is expired and
/// the user has not overridden that for this session.
pub fn render_block_active(canary_expired: bool, override_active: bool) -> (blocked: bool)
    ensures
        blocked == (canary_expired && !override_active),
{
    canary_expired && !override_active
}

/// The heading of the placeholder for blocked content.
pub const BLOCKED_TITLE: &'static str = "Content blocked: the publisher's canary has expired";

/// What the placeholder for blocked content explains.
pub const BLOCKED_TEXT: &'static str = "The publisher missed a committed canary refresh. The content is not shown as current because an expired canary can signal an operational pause or a compromise. You may proceed for this session only.";

/// The label of the override control.
pub const OVERRIDE_LABEL: &'static str = "Show content for this session";

/// The notice above content that is shown by the user's override.
pub const OVERRIDE_NOTICE: &'static str = "Expired-canary content is shown by your override for this session.";

/// What the content area shows.
#[derive(Clone, Copy, Debug, PartialEq, Eq, Structural)]
pub enum ContentArea {
    /// A placeholder of the client's own, with the override control.
    Blocked,
    /// The content, under a notice that the user's override is active.
    Overridden,
    /// The content.
    Plain,
}

/// What the user does.
#[derive(Clone, Debug)]
pub enum ViewEvent {
    /// The override control was clicked.
    OverrideClicked,
    /// An external link was clicked.
    LinkClicked(Handoff),
    /// The handoff dialog was answered or closed.
    HandoffClosed,
}

/// How the user answers the handoff dialog.
#[derive(Clone, Copy, Debug, PartialEq, Eq, Structural)]
pub enum HandoffAnswer {
    /// The copy button was clicked.
    Copy,
    /// The cancel button was clicked.
    Cancel,
    /// The dialog was closed.
    Close,
}

/// What the viewer remembers for the session. None of it persists, and none of
/// it changes the canary state or suppresses a warning.
#[derive(Clone, Debug)]
pub struct ViewSession {
    /// Whether the user overrode the block of expired content.
    pub canary_override: bool,
    /// The handoff whose dialog is open.
    pub handoff: Option<Handoff>,
}

impl Default for ViewSession {
    fn default() -> (session: ViewSession)
        ensures
            !session.canary_override,
            session.handoff is None,
    {
        ViewSession::new()
    }
}

/// What the content area shows for a canary state.
pub open spec fn area_of(canary_state: CanaryState, canary_override: bool) -> ContentArea {
    if canary_state != CanaryState::Expired {
        ContentArea::Plain
    } else if canary_override {
        ContentArea::Overridden
    } else {
        ContentArea::Blocked
    }
}

impl ViewSession {
    /// A fresh session: no override, no dialog.
    pub fn new() -> (session: ViewSession)
        ensures
            !session.canary_override,
            session.handoff is None,
    {
        ViewSession { canary_override: false, handoff: None }
    }

    /// What the content area shows.
    pub fn content_area(&self, canary_state: CanaryState) -> (area: ContentArea)
        ensures
            area == area_of(canary_state, self.canary_override),
    {
        let expired = canary_state == CanaryState::Expired;
        if render_block_active(expired, self.canary_override) {
            ContentArea::Blocked
        } else if expired {
            ContentArea::Overridden
        } else {
            ContentArea::Plain
        }
    }

    /// Take note of what the user did.
    pub fn note(&mut self, event: ViewEvent)
        ensures
            final(self).canary_override == (old(self).canary_override || event
                is OverrideClicked),
            final(self).handoff == (match event {
                ViewEvent::OverrideClicked => old(self).handoff,
                ViewEvent::LinkClicked(target) => Some(target),
                ViewEvent::HandoffClosed => None,
            }),
    {
        match event {
            ViewEvent::OverrideClicked => {
                self.canary_override = true;
            },
            ViewEvent::LinkClicked(target) => {
                self.handoff = Some(target);
            },
            ViewEvent::HandoffClosed => {
                self.handoff = None;
            },
        }
    }

    /// Answer the handoff dialog, which closes it. The text to copy to the
    /// clipboard is the destination as it is, where the user asked for it, and
    /// nothing otherwise.
    pub fn answer_handoff(&mut self, answer: HandoffAnswer) -> (copied: Option<String>)
        ensures
            final(self).handoff is None,
            final(self).canary_override == old(self).canary_override,
            answer is Copy && old(self).handoff is Some ==> (copied matches Some(url) && url@
                == old(self).handoff->0.url@),
            !(answer is Copy) || old(self).handoff is None ==> copied is None,
    {
        let copied = match (answer, &self.handoff) {
            (HandoffAnswer::Copy, Some(target)) => Some(target.url.clone()),
            _ => None,
        };
        self.note(ViewEvent::HandoffClosed);
        copied
    }
}

/// Expired content is blocked unless, and only unless, the override was clicked;
/// any other canary state never blocks.
pub proof fn law_block_only_expired_without_override(
    canary_state: CanaryState,
    canary_override: bool,
)
    ensures
        area_of(canary_state, canary_override) == ContentArea::Blocked <==> canary_state
            == CanaryState::Expired && !canary_override,
        area_of(canary_state, canary_override) == ContentArea::Overridden <==> canary_state
            == CanaryState::Expired && canary_override,
{
}

/// Only a verified or pinned publisher, and only a fresh canary, has a badge
/// that says all is well.
pub proof fn law_only_good_news_is_good(trust_state: TrustState, canary_state: CanaryState)
    ensures
        trust_label(trust_state).1 == Severity::Good <==> trust_state
            == TrustState::ExternallyVerified || trust_state == TrustState::TofuPinned,
        canary_label(canary_state).1 == Severity::Good <==> canary_state == CanaryState::Fresh,
{
}

/// A trust badge says which state it is, and how grave: a verified or pinned
/// publisher is good, a first contact asks for care, a changed key is an alert.
pub proof fn law_trust_badge_tells_the_state(state: TrustState, badge: (&'static str, Severity))
    requires
        call_ensures(trust_badge, (state,), badge),
    ensures
        match state {
            TrustState::ExternallyVerified => badge.0@ == "externally verified"@ && badge.1
                == Severity::Good,
            TrustState::TofuPinned => badge.0@ == "TOFU pinned"@ && badge.1 == Severity::Good,
            TrustState::FirstContact => badge.0@ == "first contact"@ && badge.1
                == Severity::Caution,
            TrustState::ChangedMismatch => badge.0@ == "CHANGED / MISMATCH"@ && badge.1
                == Severity::Alert,
        },
{
}

/// A canary badge says which state it is, and how grave: a fresh canary is good,
/// one near its end asks for care, an expired or invalid one is an alert, and one
/// that is not there is neither.
pub proof fn law_canary_badge_tells_the_state(
    state: CanaryState,
    badge: (&'static str, Severity),
)
    requires
        call_ensures(canary_badge, (state,), badge),
    ensures
        match state {
            CanaryState::Fresh => badge.0@ == "fresh"@ && badge.1 == Severity::Good,
            CanaryState::NearExpiration => badge.0@ == "near expiration"@ && badge.1
                == Severity::Caution,
            CanaryState::Expired => badge.0@ == "expired"@ && badge.1 == Severity::Alert,
            CanaryState::Invalid => badge.0@ == "invalid"@ && badge.1 == Severity::Alert,
            CanaryState::Unavailable => badge.0@ == "unavailable"@ && badge.1 == Severity::Neutral,
        },
{
}

/// The pills are the badges of the two states, trust first, and then the request
/// state exactly while it is active.
pub proof fn law_pills_are_the_badges(
    chrome: ChromeView,
    pills: Vec<Pill>,
    trust: (&'static str, Severity),
    canary: (&'static str, Severity),
)
    requires
        call_ensures(chrome_pills, (&chrome,), pills),
        call_ensures(trust_badge, (chrome.trust_state,), trust),
        call_ensures(canary_badge, (chrome.canary_state,), canary),
    ensures
        pills@.len() == (if chrome.request_state_active {
            3int
        } else {
            2
        }),
        pills@[0].category@ == "TRUST"@ && pills@[0].value@ == trust.0@ && pills@[0].severity
            == trust.1,
        pills@[1].category@ == "CANARY"@ && pills@[1].value@ == canary.0@ && pills@[1].severity
            == canary.1,
        chrome.request_state_active ==> pills@[2].category@ == "REQUEST"@ && pills@[2].value@
            == "active"@ && pills@[2].severity == Severity::Caution,
{
    let views = pills@.map_values(|p: Pill| pill_view(p));
    assert(views.len() == pills@.len());
    assert(views[0] == pill_view(pills@[0]));
    assert(views[1] == pill_view(pills@[1]));
    if chrome.request_state_active {
        assert(views[2] == pill_view(pills@[2]));
    }
}

/// The heading of the identity section is the label of the phrase with its
/// abbreviation.
pub proof fn law_identity_heading_is_its_label(chrome: ChromeView, text: String)
    requires
        call_ensures(pip_heading, (&chrome,), text),
    ensures
        text@ == chrome.pip_label@ + " (PIP)"@,
{
}

/// A banner says which warning it is. What is wrong with the identity or the
/// canary itself is an alert; a gap, and content that is not current, asks for
/// care.
pub proof fn law_banner_tells_the_warning(
    warning: Warning,
    banner: (&'static str, &'static str, Severity),
)
    requires
        call_ensures(warning_banner, (warning,), banner),
    ensures
        match warning {
            Warning::TrustMismatch => banner.1@ == "Publisher identity changed / mismatch"@,
            Warning::CanaryConflict => banner.1@ == "Canary conflict"@,
            Warning::CanaryExpired => banner.1@ == "Canary expired"@,
            Warning::CanaryInvalid => banner.1@ == "Canary invalid"@,
            Warning::CanaryGap => banner.1@ == "Canary gap observed"@,
            Warning::HistoricalContent => banner.1@ == "Historical content"@,
            Warning::StaleCachedContent => banner.1@ == "Stale cached content"@,
        },
        banner.2 == Severity::Alert <==> warning == Warning::TrustMismatch || warning
            == Warning::CanaryConflict || warning == Warning::CanaryExpired || warning
            == Warning::CanaryInvalid,
        banner.2 == Severity::Alert || banner.2 == Severity::Caution,
        banner.0@ == (if warning == Warning::HistoricalContent || warning
            == Warning::StaleCachedContent {
            "\u{1F552}"@
        } else {
            "\u{26A0}"@
        }),
{
}

/// The tag of an external link tells a destination over the carrier from one on
/// the open network.
pub proof fn law_tag_tells_the_boundary(kind: HandoffKind, tag: &'static str)
    requires
        call_ensures(handoff_tag, (kind,), tag),
    ensures
        kind == HandoffKind::Carrier ==> tag@ == " [carrier \u{2197}]"@,
        kind == HandoffKind::Citation ==> tag@ == " [clearnet \u{2197}]"@,
{
}

/// The dialog names the boundary of its own handoff, shows its destination
/// isolated, and holds it unchanged for copying.
pub proof fn law_dialog_is_of_its_handoff(handoff: Handoff, dialog: HandoffDialog)
    requires
        call_ensures(handoff_dialog, (&handoff,), dialog),
    ensures
        dialog.url@ == handoff.url@,
        dialog.shown_url@ == crate::text::isolated(handoff.url@),
        handoff.kind == HandoffKind::Carrier ==> dialog.title@ == "Open carrier link?"@
            && dialog.notice@
            == "This link points outside Entangled to a service reachable over the carrier (Tor), not the clearnet. It is not auto-opened: copying it lets you open it in a carrier-aware browser (such as Tor Browser). Do not open it in a browser that would resolve the host over public DNS or the clearnet, which would leak the request and defeat the carrier's confidentiality."@,
        handoff.kind == HandoffKind::Citation ==> dialog.title@ == "Open clearnet link?"@
            && dialog.notice@
            == "This link leaves Entangled for the clearnet. Opening or copying it transmits the URL outside the carrier; the destination and any in-path observer on the clearnet may learn it was reached from here."@,
{
}

/// Expired content is shown only by the user's override, under a notice; content
/// under any other canary state is shown as it is.
pub proof fn law_expired_content_needs_the_override(
    session: ViewSession,
    canary_state: CanaryState,
    area: ContentArea,
    blocked: bool,
)
    requires
        call_ensures(ViewSession::content_area, (&session, canary_state), area),
        call_ensures(
            render_block_active,
            (canary_state == CanaryState::Expired, session.canary_override),
            blocked,
        ),
    ensures
        area == ContentArea::Blocked <==> canary_state == CanaryState::Expired
            && !session.canary_override,
        area == ContentArea::Overridden <==> canary_state == CanaryState::Expired
            && session.canary_override,
        area == ContentArea::Plain <==> canary_state != CanaryState::Expired,
        blocked <==> area == ContentArea::Blocked,
{
}

/// A fresh session has neither an override nor an open dialog.
pub proof fn law_fresh_session_overrides_nothing(session: ViewSession)
    requires
        call_ensures(ViewSession::new, (), session),
    ensures
        !session.canary_override,
        session.handoff is None,
{
}

/// Only a click on the override sets it, and nothing takes it back. Only a click
/// on a link opens a dialog, that of this link, and only an answer closes it.
pub proof fn law_session_follows_the_clicks(session: &mut ViewSession, event: ViewEvent)
    requires
        call_ensures(ViewSession::note, (session, event), ()),
    ensures
        final(session).canary_override <==> old(session).canary_override || event
            is OverrideClicked,
        event is OverrideClicked ==> final(session).handoff == old(session).handoff,
        event matches ViewEvent::LinkClicked(target) ==> final(session).handoff == Some(target),
        event is HandoffClosed ==> final(session).handoff is None,
{
}

/// Nothing is copied but the destination of the open dialog, and that only when
/// the user asks for it. Every answer closes the dialog.
pub proof fn law_only_copying_copies(
    session: &mut ViewSession,
    answer: HandoffAnswer,
    copied: Option<String>,
)
    requires
        call_ensures(ViewSession::answer_handoff, (session, answer), copied),
    ensures
        copied is Some <==> answer == HandoffAnswer::Copy && old(session).handoff is Some,
        copied matches Some(url) ==> url@ == old(session).handoff->0.url@,
        final(session).handoff is None,
        final(session).canary_override == old(session).canary_override,
{
}

/// Each severity has colors of its own, with light text on a dark fill: good is
/// greenest, an alert reddest, and only the neutral one leans to blue.
pub proof fn law_severities_are_told_by_color(
    severity: Severity,
    colors: (Rgb, Rgb),
    edge: Rgb,
)
    requires
        call_ensures(Severity::pill_colors, (severity,), colors),
        call_ensures(Severity::accent, (severity,), edge),
    ensures
        ({
            let (text, fill) = colors;
            &&& text.r > 0x90 && text.g > 0x90 && text.b > 0x90
            &&& fill.r <= 0x40 && fill.g <= 0x40 && fill.b <= 0x40
            &&& severity == Severity::Good ==> edge.g > edge.r && edge.g > edge.b && text.g > text.r
                && fill.g > fill.r
            &&& severity == Severity::Alert ==> edge.r > edge.g && edge.g == edge.b && text.r
                > text.g && fill.r > fill.g && text.g == text.b && fill.g == fill.b
            &&& severity == Severity::Caution ==> edge.r > edge.g > edge.b && text.r > text.g
                > text.b && fill.r > fill.g > fill.b
            &&& severity == Severity::Neutral ==> edge.b > edge.g > edge.r && text.b > text.g
                > text.r && fill.b > fill.g > fill.r
        }),
{
}

/// The placeholder for blocked content says why it stands there and that going
/// on is for this session only; the control and the notice say so too.
pub proof fn law_blocked_content_is_explained()
    ensures
        BLOCKED_TITLE@ == "Content blocked: the publisher's canary has expired"@,
        BLOCKED_TEXT@
            == "The publisher missed a committed canary refresh. The content is not shown as current because an expired canary can signal an operational pause or a compromise. You may proceed for this session only."@,
        OVERRIDE_LABEL@ == "Show content for this session"@,
        OVERRIDE_NOTICE@
            == "Expired-canary content is shown by your override for this session."@,
{
}

} // verus!
