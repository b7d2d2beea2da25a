//! Timestamps: their strict text, and their order.

use entangled_client::history::is_refetch;
use entangled_client::protocol::{
    EntangledTimestamp, OnionAddress, PublisherPubkey, RetainedManifestRecord, RuntimePubkey,
};
use entangled_client::PublisherHistory;

fn ts(s: &str) -> EntangledTimestamp {
    EntangledTimestamp::from_text(s).expect("valid timestamp")
}

#[test]
fn timestamps_keep_their_text() {
    let t = ts("2026-06-05T12:34:56Z");
    assert_eq!(t.to_text(), "2026-06-05T12:34:56Z");
    assert_eq!(t, ts("2026-06-05T12:34:56Z"));
    assert_ne!(t, ts("2026-06-05T12:34:57Z"));
    for loose in [
        "",
        "2026-06-05T12:34:56",
        "2026-06-05T12:34:56Z ",
        "2026-06-05t12:34:56Z",
        "2026-06-05 12:34:56Z",
        "2026-6-05T12:34:56ZZ",
        "2026-06-05T12:34:5\u{666}Z",
    ] {
        assert!(EntangledTimestamp::from_text(loose).is_none(), "{loose:?}");
    }
}

#[test]
fn timestamps_are_ordered_by_time() {
    let in_order = [
        "1999-12-31T23:59:59Z",
        "2026-05-07T00:00:00Z",
        "2026-05-07T00:00:01Z",
        "2026-05-07T00:01:00Z",
        "2026-05-10T00:00:00Z",
        "2026-06-05T00:00:00Z",
        "2030-01-01T00:00:00Z",
    ];
    for i in 0..in_order.len() {
        for j in 0..in_order.len() {
            assert_eq!(ts(in_order[i]).is_earlier_than(&ts(in_order[j])), i < j);
        }
    }
}

#[test]
fn keys_are_equal_by_their_bytes() {
    let mut other = [7u8; 32];
    other[31] = 8;
    assert_eq!(PublisherPubkey([7; 32]), PublisherPubkey([7; 32]));
    assert_ne!(PublisherPubkey([7; 32]), PublisherPubkey(other));
    assert_ne!(RuntimePubkey([7; 32]), RuntimePubkey(other));
}

#[test]
fn refetch_is_told_by_the_payload() {
    let record = |payload: u8| RetainedManifestRecord {
        issued_at: ts("2026-05-07T00:00:00Z"),
        runtime_pubkey: RuntimePubkey([1; 32]),
        manifest_payload_hash: [payload; 32],
    };
    let mut history = PublisherHistory::default();
    assert!(!is_refetch(&record(1), &history));
    history.push(record(1));
    assert!(is_refetch(&record(1), &history));
    history.push(record(2));
    assert!(!is_refetch(&record(1), &history));
}

#[test]
fn onion_form_is_told_by_its_characters() {
    let label = "abcdefghijklmnopqrstuvwxyz234567abcdefghijklmnopqrstuvwx";
    let has_form = |text: String| OnionAddress::new(text).has_onion_form();
    assert!(has_form(format!("{label}.onion")));
    assert!(!has_form(format!("{label}.onio")));
    assert!(!has_form(format!("{label}a.onion")));
    assert!(!has_form(format!("{}.onion", &label[1..])));
    assert!(!has_form(format!("{}.onion", label.to_uppercase())));
    assert!(!has_form(format!("{}.onion", label.replace('a', "1"))));
    assert!(!has_form(format!("{}.onion", label.replace('b', "/"))));
    assert!(!has_form(format!("{label}.ONION")));
    assert!(!has_form(String::new()));
}
