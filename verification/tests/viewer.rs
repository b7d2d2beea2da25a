//! The viewer's decisions: the block of expired content, handoffs, badges, and
//! how a scene is laid out.

use entangled_client::chrome::{ChromeConditions, ChromeView, Warning};
use entangled_client::protocol::{CanaryState, ImageMediaType, ImageRef};
use entangled_client::scene::{
    external_handoff, field_label, lay_out, runs_text, Element, Family, FormFieldView, Handoff,
    HandoffKind, InlineRun, LinkRef, RunStyle, Scene, SceneNode, Tone,
};
use entangled_client::text::{decimal_text, isolate};
use entangled_client::trust::TrustState;
use entangled_client::viewer::{
    canary_badge, chrome_pills, handoff_dialog, handoff_tag, pip_heading, render_block_active,
    trust_badge, warning_banner, ContentArea, HandoffAnswer, Rgb, Severity, ViewEvent, ViewSession,
};

#[test]
fn non_expired_canary_never_blocks() {
    // Whatever the override flag, a non-Expired canary renders content.
    assert!(!render_block_active(false, false));
    assert!(!render_block_active(false, true));
}

#[test]
fn expired_canary_blocks_until_override() {
    // Expired blocks by default...
    assert!(render_block_active(true, false));
    // ...and only an active per-session override unblocks it.
    assert!(!render_block_active(true, true));
}

#[test]
fn carrier_link_is_a_carrier_handoff() {
    let link = LinkRef::Carrier {
        url: "http://example.onion/x".to_owned(),
    };
    let h = external_handoff(&link).expect("carrier is an external handoff");
    assert_eq!(h.kind, HandoffKind::Carrier);
    assert_eq!(h.url, "http://example.onion/x");
}

#[test]
fn citation_link_is_a_citation_handoff() {
    let link = LinkRef::Citation {
        url: "https://example.org/ref".to_owned(),
    };
    let h = external_handoff(&link).expect("citation is an external handoff");
    assert_eq!(h.kind, HandoffKind::Citation);
}

#[test]
fn internal_links_have_no_handoff() {
    // Same-site is internal navigation, never an external handoff.
    let link = LinkRef::SameSite {
        path: "/x".to_owned(),
    };
    assert!(external_handoff(&link).is_none());
    assert!(external_handoff(&LinkRef::Entangled).is_none());
}

#[test]
fn session_remembers_the_override_and_the_handoff() {
    let mut session = ViewSession::new();
    assert_eq!(session.content_area(CanaryState::Expired), ContentArea::Blocked);
    assert_eq!(session.content_area(CanaryState::Fresh), ContentArea::Plain);
    let target = Handoff {
        url: "https://example.org".to_owned(),
        kind: HandoffKind::Citation,
    };
    session.note(ViewEvent::LinkClicked(target.clone()));
    assert_eq!(session.handoff, Some(target));
    // A click elsewhere does not unblock.
    assert_eq!(session.content_area(CanaryState::Expired), ContentArea::Blocked);
    session.note(ViewEvent::OverrideClicked);
    assert_eq!(session.content_area(CanaryState::Expired), ContentArea::Overridden);
    session.note(ViewEvent::HandoffClosed);
    assert!(session.handoff.is_none());
    assert!(session.canary_override);
    assert_eq!(session.content_area(CanaryState::Invalid), ContentArea::Plain);
}

#[test]
fn only_the_copy_button_copies() {
    let target = Handoff {
        url: "http://example.onion/\u{202E}x".to_owned(),
        kind: HandoffKind::Carrier,
    };
    for (answer, expected) in [
        (HandoffAnswer::Copy, Some(target.url.clone())),
        (HandoffAnswer::Cancel, None),
        (HandoffAnswer::Close, None),
    ] {
        let mut session = ViewSession::new();
        // Without a dialog there is nothing to copy.
        assert_eq!(session.answer_handoff(answer), None);
        session.note(ViewEvent::OverrideClicked);
        session.note(ViewEvent::LinkClicked(target.clone()));
        assert_eq!(session.answer_handoff(answer), expected);
        assert!(session.handoff.is_none());
        assert!(session.canary_override);
        assert_eq!(session.answer_handoff(answer), None);
    }
}

#[test]
fn badges_tell_the_states() {
    assert_eq!(trust_badge(TrustState::ExternallyVerified), ("externally verified", Severity::Good));
    assert_eq!(trust_badge(TrustState::TofuPinned), ("TOFU pinned", Severity::Good));
    assert_eq!(trust_badge(TrustState::FirstContact), ("first contact", Severity::Caution));
    assert_eq!(trust_badge(TrustState::ChangedMismatch), ("CHANGED / MISMATCH", Severity::Alert));
    assert_eq!(canary_badge(CanaryState::Fresh), ("fresh", Severity::Good));
    assert_eq!(canary_badge(CanaryState::NearExpiration), ("near expiration", Severity::Caution));
    assert_eq!(canary_badge(CanaryState::Expired), ("expired", Severity::Alert));
    assert_eq!(canary_badge(CanaryState::Invalid), ("invalid", Severity::Alert));
    assert_eq!(canary_badge(CanaryState::Unavailable), ("unavailable", Severity::Neutral));
    assert_eq!(
        warning_banner(Warning::CanaryGap),
        ("\u{26A0}", "Canary gap observed", Severity::Caution)
    );
    assert_eq!(
        warning_banner(Warning::StaleCachedContent),
        ("\u{1F552}", "Stale cached content", Severity::Caution)
    );
    assert_eq!(Severity::Alert.accent(), Rgb { r: 0xe0, g: 0x50, b: 0x50 });
    assert_eq!(
        Severity::Neutral.pill_colors(),
        (Rgb { r: 0xC4, g: 0xCC, b: 0xD6 }, Rgb { r: 0x24, g: 0x2b, b: 0x36 })
    );
}

#[test]
fn pills_follow_the_chrome() {
    let view = |request_state_active: bool| {
        ChromeView::build(
            "a phrase".to_owned(),
            TrustState::TofuPinned,
            CanaryState::Expired,
            "address".to_owned(),
            ChromeConditions {
                request_state_active,
                ..ChromeConditions::default()
            },
        )
    };
    let quiet = chrome_pills(&view(false));
    let shown: Vec<(&str, &str)> = quiet.iter().map(|p| (p.category, p.value)).collect();
    assert_eq!(shown, vec![("TRUST", "TOFU pinned"), ("CANARY", "expired")]);
    let active = chrome_pills(&view(true));
    assert_eq!(active.len(), 3);
    assert_eq!((active[2].category, active[2].value), ("REQUEST", "active"));
    assert_eq!(active[2].severity, Severity::Caution);
    assert_eq!(pip_heading(&view(false)), "publisher identity phrase (PIP)");
}

#[test]
fn handoff_dialogs_differ_by_kind() {
    let carrier = handoff_dialog(&Handoff {
        url: "http://x.onion/\u{202E}gpj".to_owned(),
        kind: HandoffKind::Carrier,
    });
    assert_eq!(carrier.title, "Open carrier link?");
    assert!(carrier.notice.contains("reachable over the carrier"));
    assert!(!carrier.notice.contains("leaves Entangled for the clearnet"));
    assert_eq!(carrier.shown_url, "\u{2068}http://x.onion/<U+202E>gpj\u{2069}");
    assert_eq!(carrier.url, "http://x.onion/\u{202E}gpj");
    let citation = handoff_dialog(&Handoff {
        url: "https://example.org".to_owned(),
        kind: HandoffKind::Citation,
    });
    assert_eq!(citation.title, "Open clearnet link?");
    assert!(citation.notice.contains("leaves Entangled for the clearnet"));
    assert_eq!(handoff_tag(HandoffKind::Carrier), " [carrier \u{2197}]");
    assert_eq!(handoff_tag(HandoffKind::Citation), " [clearnet \u{2197}]");
}

#[test]
fn publisher_text_is_isolated_and_its_controls_are_visible() {
    assert_eq!(isolate(""), "\u{2068}\u{2069}");
    assert_eq!(isolate("plain"), "\u{2068}plain\u{2069}");
    assert_eq!(
        isolate("a\u{202E}b\u{2069}c\u{61C}"),
        "\u{2068}a<U+202E>b<U+2069>c<U+061C>\u{2069}"
    );
    assert_eq!(isolate("\u{2028}\u{0640}"), "\u{2068}\u{2028}\u{0640}\u{2069}");
    assert_eq!(decimal_text(0), "0");
    assert_eq!(decimal_text(1_002_030), "1002030");
    assert_eq!(decimal_text(u64::MAX), "18446744073709551615");
}

fn plain() -> RunStyle {
    RunStyle {
        bold: false,
        italic: false,
        code: false,
        strikethrough: false,
    }
}

fn run(text: &str) -> InlineRun {
    InlineRun::Text {
        text: text.to_owned(),
        style: plain(),
    }
}

#[test]
fn runs_flatten_to_text() {
    let runs = vec![
        run("a "),
        InlineRun::Link {
            text: "b".to_owned(),
            style: plain(),
        },
        run(" c"),
    ];
    assert_eq!(runs_text(&runs), "a b c");
    assert_eq!(runs_text(&vec![]), "");
    let field = FormFieldView::Textarea {
        label: "Message".to_owned(),
    };
    assert_eq!(field_label(&field), "[textarea] Message");
}

#[test]
fn scene_is_laid_out_block_by_block() {
    let scene = Scene {
        nodes: vec![
            SceneNode::Heading {
                level: 2,
                runs: vec![run("Title")],
            },
            SceneNode::Paragraph {
                runs: vec![
                    InlineRun::Text {
                        text: "code".to_owned(),
                        style: RunStyle { bold: true, code: true, ..plain() },
                    },
                    InlineRun::Link {
                        text: "link".to_owned(),
                        style: RunStyle { bold: true, ..plain() },
                    },
                ],
            },
            SceneNode::List {
                ordered: true,
                items: vec![vec![run("one")], vec![run("two")]],
            },
            SceneNode::Image {
                image: ImageRef {
                    src: "/a.png".to_owned(),
                    sha256: [0; 32],
                    media_type: ImageMediaType::Png,
                    width: 1,
                    height: 1,
                    alt: String::new(),
                    caption: Some("cap".to_owned()),
                },
            },
            SceneNode::Quote {
                runs: vec![run("said")],
                attribution: Some(vec![run("some"), run("one")]),
            },
        ],
    };
    let elements = lay_out(&scene);
    assert_eq!(elements.len(), 3 + 2 + 5 + 2 + 3);
    assert_eq!(elements[0], Element::Gap(10));
    match &elements[1] {
        Element::Block { runs, points, indented } => {
            assert_eq!((*points, *indented), (21, false));
            assert_eq!(runs[0].text, "\u{2068}Title\u{2069}");
            assert_eq!(runs[0].tone, Tone::Heading);
            assert_eq!(runs[0].family, Family::Proportional);
        }
        other => panic!("unexpected {other:?}"),
    }
    match &elements[3] {
        Element::Block { runs, points, .. } => {
            assert_eq!(*points, 15);
            assert_eq!(runs[0].family, Family::Monospace);
            assert!(!runs[0].underline);
            assert_eq!(runs[1].family, Family::Bold);
            assert_eq!(runs[1].tone, Tone::Link);
            assert!(runs[1].underline);
        }
        other => panic!("unexpected {other:?}"),
    }
    match (&elements[5], &elements[7]) {
        (Element::Item { bullet: first, .. }, Element::Item { bullet: second, .. }) => {
            assert_eq!((first.as_str(), second.as_str()), ("1.", "2."));
        }
        other => panic!("unexpected {other:?}"),
    }
    assert_eq!(elements[9], Element::Gap(10));
    assert_eq!(
        elements[10],
        Element::ImageBox {
            text: "[image: image]".to_owned(),
            caption: Some("\u{2068}cap\u{2069}".to_owned()),
        }
    );
    assert_eq!(
        elements[13],
        Element::Line {
            text: "-- \u{2068}someone\u{2069}".to_owned(),
            points: 13,
            tone: Tone::Muted,
            indented: true,
        }
    );
}

#[test]
fn forms_links_and_boxes_are_laid_out() {
    let scene = Scene {
        nodes: vec![
            SceneNode::SubmitForm {
                label: vec![run("Form")],
                fields: vec![FormFieldView::Checkbox {
                    label: "Agree".to_owned(),
                }],
                submit_label: "Send".to_owned(),
            },
            SceneNode::Link {
                label: vec![run("there")],
                link: LinkRef::Citation {
                    url: "https://example.org".to_owned(),
                },
            },
            SceneNode::Link {
                label: vec![run("here")],
                link: LinkRef::SameSite {
                    path: "/here".to_owned(),
                },
            },
            SceneNode::Note {
                title: Some("Note".to_owned()),
                runs: vec![],
            },
            SceneNode::CodeBlock {
                text: "x = 1".to_owned(),
            },
            SceneNode::Divider,
            SceneNode::Feedback {
                runs: vec![run("done")],
            },
            SceneNode::List {
                ordered: false,
                items: vec![vec![run("item")]],
            },
        ],
    };
    let elements = lay_out(&scene);
    assert_eq!(
        elements[2],
        Element::Line {
            text: "[checkbox] \u{2068}Agree\u{2069}".to_owned(),
            points: 15,
            tone: Tone::Muted,
            indented: true,
        }
    );
    assert_eq!(
        elements[4],
        Element::Line {
            text: "[ \u{2068}Send\u{2069} ]".to_owned(),
            points: 15,
            tone: Tone::Body,
            indented: false,
        }
    );
    match (&elements[6], &elements[8]) {
        (Element::Link { handoff: out, .. }, Element::Link { handoff: inside, .. }) => {
            assert_eq!(
                *out,
                Some((HandoffKind::Citation, "https://example.org".to_owned()))
            );
            assert!(inside.is_none());
        }
        other => panic!("unexpected {other:?}"),
    }
    assert_eq!(
        elements[10],
        Element::NoteBox {
            title: Some("\u{2068}Note\u{2069}".to_owned()),
            runs: vec![],
        }
    );
    assert_eq!(
        elements[12],
        Element::CodeBox {
            text: "\u{2068}x = 1\u{2069}".to_owned(),
        }
    );
    assert_eq!(elements[15], Element::Rule);
    match &elements[elements.len() - 3] {
        Element::Item { bullet, .. } => assert_eq!(bullet, "\u{2022}"),
        other => panic!("unexpected {other:?}"),
    }
}
