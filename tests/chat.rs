use retro_chat::client::{classify_input, help_text, on_received, outbound_line, render_message, InputCommand};
use retro_chat::clock::now_timestamp;
use retro_chat::envelope::{ChatMessage, MessageType};
use retro_chat::hub::Hub;
use retro_chat::session::{SessionAction, SessionEvent, SessionState};

fn published(actions: &[SessionAction]) -> Vec<&ChatMessage> {
    actions
        .iter()
        .filter_map(|a| match a {
            SessionAction::Publish(m) => Some(m),
            SessionAction::Write(_) => None,
        })
        .collect()
}

fn connect(name: &str) -> (SessionState, ChatMessage) {
    let mut s = SessionState::new();
    let mut acts = s.handle(SessionEvent::LineRead(format!("{}\n", name)), "10:00:00");
    assert_eq!(acts.len(), 1);
    match acts.remove(0) {
        SessionAction::Publish(m) => (s, m),
        SessionAction::Write(_) => panic!("expected a join notice"),
    }
}

#[test]
fn join_notice_carries_trimmed_username() {
    let (s, m) = connect("  alice ");
    assert!(!s.is_terminated());
    assert_eq!(m.username, "alice");
    assert_eq!(m.content, "joined the chat");
    assert_eq!(m.timestamp, "10:00:00");
    assert_eq!(m.message_type, MessageType::SystemNotification);
}

#[test]
fn alice_says_hello() {
    let (mut s, _) = connect("alice");
    let acts = s.handle(SessionEvent::LineRead("hello\n".to_string()), "10:00:01");
    let pubs = published(&acts);
    assert_eq!(pubs.len(), 1);
    assert_eq!(pubs[0].username, "alice");
    assert_eq!(pubs[0].content, "hello");
    assert_eq!(pubs[0].timestamp, "10:00:01");
    assert_eq!(pubs[0].message_type, MessageType::UserMessage);
}

#[test]
fn delivered_record_is_written_with_newline() {
    let (mut s, _) = connect("alice");
    let acts = s.handle(SessionEvent::Delivered("{\"x\":1}".to_string()), "10:00:01");
    assert_eq!(acts.len(), 1);
    match &acts[0] {
        SessionAction::Write(w) => assert_eq!(w, "{\"x\":1}\n"),
        SessionAction::Publish(_) => panic!("expected a write"),
    }
}

#[test]
fn alice_leaves_once_and_then_is_silent() {
    let (mut s, _) = connect("alice");
    let acts = s.handle(SessionEvent::Disconnected, "10:00:05");
    let pubs = published(&acts);
    assert_eq!(pubs.len(), 1);
    assert_eq!(pubs[0].username, "alice");
    assert_eq!(pubs[0].content, "left the chat");
    assert_eq!(pubs[0].message_type, MessageType::SystemNotification);
    assert!(s.is_terminated());
    assert!(s.handle(SessionEvent::LineRead("more\n".to_string()), "10:00:06").is_empty());
    assert!(s.handle(SessionEvent::Delivered("x".to_string()), "10:00:06").is_empty());
    assert!(s.handle(SessionEvent::Disconnected, "10:00:06").is_empty());
}

#[test]
fn disconnect_before_identity_announces_nothing() {
    let mut s = SessionState::new();
    assert!(s.handle(SessionEvent::Disconnected, "10:00:00").is_empty());
    assert!(s.is_terminated());
}

#[test]
fn lag_is_skipped() {
    let (mut s, _) = connect("bob");
    assert!(s.handle(SessionEvent::Lagged, "10:00:00").is_empty());
    assert!(!s.is_terminated());
}

#[test]
fn hub_fans_out_to_every_subscriber_in_order() {
    let mut hub = Hub::new();
    assert_eq!(hub.publish("lost".to_string()), 0);
    let mut a = hub.subscribe();
    let mut b = hub.subscribe();
    assert_eq!(hub.publish("hi".to_string()), 2);
    assert_eq!(hub.publish("yo".to_string()), 2);
    assert_eq!(a.try_recv().unwrap(), "hi");
    assert_eq!(a.try_recv().unwrap(), "yo");
    assert_eq!(b.try_recv().unwrap(), "hi");
    assert_eq!(b.try_recv().unwrap(), "yo");
    assert!(a.try_recv().is_err());
}

#[test]
fn two_sessions_see_the_same_order() {
    let mut hub = Hub::new();
    let mut rx_alice = hub.subscribe();
    let mut rx_bob = hub.subscribe();
    let (mut alice, _) = connect("alice");
    let (mut bob, _) = connect("bob");
    hub.publish("hi".to_string());
    hub.publish("yo".to_string());
    let mut seen_alice = Vec::new();
    let mut seen_bob = Vec::new();
    while let Ok(r) = rx_alice.try_recv() {
        for a in alice.handle(SessionEvent::Delivered(r), "10:00:00") {
            if let SessionAction::Write(w) = a {
                seen_alice.push(w);
            }
        }
    }
    while let Ok(r) = rx_bob.try_recv() {
        for a in bob.handle(SessionEvent::Delivered(r), "10:00:00") {
            if let SessionAction::Write(w) = a {
                seen_bob.push(w);
            }
        }
    }
    assert_eq!(seen_alice, vec!["hi\n".to_string(), "yo\n".to_string()]);
    assert_eq!(seen_alice, seen_bob);
}

#[test]
fn slow_subscriber_lags() {
    let mut hub = Hub::new();
    let mut rx = hub.subscribe();
    for i in 0..200 {
        hub.publish(format!("{}", i));
    }
    assert!(rx.try_recv().is_err());
    assert!(rx.try_recv().is_ok());
}

#[test]
fn local_commands_stay_local() {
    assert!(matches!(classify_input(""), InputCommand::Ignore));
    assert!(matches!(classify_input("/help"), InputCommand::ShowHelp));
    assert!(matches!(classify_input("/clear"), InputCommand::ClearHistory));
    assert!(matches!(classify_input("/quit"), InputCommand::Quit));
    match classify_input("hello") {
        InputCommand::Send(s) => assert_eq!(s, "hello\n"),
        _ => panic!("expected a send"),
    }
    match classify_input("/helpme") {
        InputCommand::Send(s) => assert_eq!(s, "/helpme\n"),
        _ => panic!("expected a send"),
    }
}

#[test]
fn outbound_line_ends_with_newline() {
    assert_eq!(outbound_line("alice"), "alice\n");
}

#[test]
fn help_lists_the_commands() {
    assert_eq!(
        help_text(),
        "\n=== Commands ===\n/help - Show this help\n/clear - Clear messages\n/quit - Exit chat\n\n"
    );
}

#[test]
fn rendering_of_each_kind() {
    let m = ChatMessage::user_message("alice", "hello", "12:34:56");
    assert_eq!(render_message(&m), "┌─[12:34:56]\n└─ alice ▶ hello\n");
    let n = ChatMessage::leave_notice("alice", "12:34:57");
    assert_eq!(render_message(&n), "\n[alice left the chat]\n");
    let j = ChatMessage::join_notice("bob", "12:34:58");
    assert_eq!(render_message(&j), "\n[bob joined the chat]\n");
}

#[test]
fn malformed_line_shows_nothing() {
    assert!(on_received(None).is_none());
    let m = ChatMessage::new(
        "bob".to_string(),
        "yo".to_string(),
        "01:02:03".to_string(),
        MessageType::UserMessage,
    );
    assert_eq!(on_received(Some(m)).unwrap(), "┌─[01:02:03]\n└─ bob ▶ yo\n");
}

#[test]
fn clock_reads_hh_mm_ss() {
    let t = now_timestamp();
    let b = t.as_bytes();
    assert_eq!(b.len(), 8);
    assert_eq!(b[2], b':');
    assert_eq!(b[5], b':');
    for i in [0usize, 1, 3, 4, 6, 7] {
        assert!(b[i].is_ascii_digit());
    }
}

#[test]
fn second_handle_publishes_to_the_same_subscribers() {
    let hub = Hub::new();
    let mut other = hub.handle();
    let mut rx = hub.subscribe();
    assert_eq!(other.publish("from other".to_string()), 1);
    assert_eq!(rx.try_recv().unwrap(), "from other");
}

#[test]
fn unicode_white_space_is_trimmed() {
    let (_, m) = connect("\u{3000}\talice\u{a0} ");
    assert_eq!(m.username, "alice");
}
