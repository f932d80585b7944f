use chat_core::default_true;
use chat_core::gate::{VerificationState, VerifiedGate, WaitStep};
use chat_core::mirror::{Diff, OrderedMirror};
use chat_core::rooms::{room_label, room_lines, RoomEntry, RoomLine};

fn room(name: Option<&str>, id: &str, unread: u64) -> RoomEntry {
    RoomEntry { display_name: name.map(|n| n.to_string()), id: id.to_string(), unread }
}

#[test]
fn label_falls_back_to_id() {
    assert_eq!(room_label(&room(Some("Lobby"), "!a:x.org", 0)), "Lobby");
    assert_eq!(room_label(&room(None, "!b:x.org", 0)), "!b:x.org");
}

#[test]
fn listing_follows_list_order() {
    let mut m: OrderedMirror<RoomEntry> = OrderedMirror::new();
    m.apply(Diff::Append(vec![room(Some("Lobby"), "!a:x.org", 3), room(None, "!b:x.org", 0)]))
        .unwrap();
    m.apply(Diff::PushFront(room(Some("News"), "!c:x.org", 12))).unwrap();
    assert_eq!(
        room_lines(&m),
        vec![
            RoomLine { label: "News".to_string(), unread: 12 },
            RoomLine { label: "Lobby".to_string(), unread: 3 },
            RoomLine { label: "!b:x.org".to_string(), unread: 0 },
        ]
    );
}

#[test]
fn gate_follows_latest_update() {
    let mut g = VerifiedGate::new();
    assert!(!g.is_open());
    assert_eq!(g.wait_step(), WaitStep::Sleep);
    assert!(g.observe(VerificationState::Verified));
    assert!(g.is_open());
    assert_eq!(g.wait_step(), WaitStep::Proceed);
    assert!(!g.observe(VerificationState::Verified));
    assert!(g.observe(VerificationState::Unverified));
    assert!(!g.is_open());
    assert!(!g.observe(VerificationState::Unknown));
    assert!(!g.is_open());
}

#[test]
fn settings_default_on() {
    assert!(default_true());
}
