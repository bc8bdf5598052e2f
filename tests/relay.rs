use print_relay::error::AdapterError;
use print_relay::registry::ConnectionRegistry;
use print_relay::relay::{after_echo, echo_text, on_read, relay_addr, LoopAction, ReadEvent, WATCHDOG_SECS};

#[test]
fn registry_connects_and_drains() {
    let mut reg: ConnectionRegistry<&str> = ConnectionRegistry::new();
    assert!(!reg.is_connected());
    let g = reg.install("peer");
    assert!(reg.is_connected());
    assert!(matches!(on_read(&mut reg, g, ReadEvent::Closed), LoopAction::Drained));
    assert!(!reg.is_connected());
}

#[test]
fn second_connection_supersedes_first() {
    let mut reg: ConnectionRegistry<&str> = ConnectionRegistry::new();
    let g1 = reg.install("first");
    let g2 = reg.install("second");
    assert_ne!(g1, g2);
    let c = reg.take_connection().unwrap();
    assert_eq!(c, "second");
    reg.restore(c);
    assert!(matches!(on_read(&mut reg, g1, ReadEvent::Failed("reset".to_string())), LoopAction::Superseded));
    assert!(reg.is_connected());
    assert!(reg.is_current(g2));
}

#[test]
fn send_without_connection_is_absent() {
    let mut reg: ConnectionRegistry<u8> = ConnectionRegistry::new();
    let before = reg.generation();
    assert!(matches!(reg.take_connection(), Err(AdapterError::ConnectionAbsent)));
    assert!(!reg.is_connected());
    assert_eq!(reg.generation(), before);
}

#[test]
fn ping_is_forwarded_and_echoed() {
    assert_eq!(relay_addr(), "127.0.0.1:14528");
    let mut reg: ConnectionRegistry<u8> = ConnectionRegistry::new();
    let g = reg.install(1);
    match on_read(&mut reg, g, ReadEvent::Text("ping".to_string())) {
        LoopAction::Forward { notify, echo } => {
            assert_eq!(notify, "ping");
            assert_eq!(echo, "回声: ping");
        }
        _ => panic!("expected a forward"),
    }
    assert!(reg.is_connected());
    assert!(matches!(after_echo(&mut reg, g, true), LoopAction::Continue));
    assert!(matches!(after_echo(&mut reg, g, false), LoopAction::Drained));
    assert!(!reg.is_connected());
}

#[test]
fn silent_peer_is_drained_after_watchdog() {
    assert_eq!(WATCHDOG_SECS, 5);
    let mut reg: ConnectionRegistry<u8> = ConnectionRegistry::new();
    let g = reg.install(1);
    let action = on_read(&mut reg, g, ReadEvent::TimedOut);
    assert!(matches!(action, LoopAction::Drained));
    assert!(!reg.is_connected());
}

#[test]
fn other_frames_keep_reading() {
    let mut reg: ConnectionRegistry<u8> = ConnectionRegistry::new();
    let g = reg.install(1);
    assert!(matches!(on_read(&mut reg, g, ReadEvent::Other), LoopAction::Continue));
    assert!(reg.is_connected());
    assert_eq!(echo_text(""), "回声: ");
}
