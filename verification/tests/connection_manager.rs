use filetransfer::connection::{ConnectOutcome, ConnectionManager, ConnectionState};

#[test]
fn a_new_manager_is_disconnected() {
    let m = ConnectionManager::new();
    assert!(matches!(m.state(), ConnectionState::Disconnected));
    assert!(!m.is_connected());
    assert!(!m.is_fatal());
}

#[test]
fn a_tick_starts_one_attempt_and_no_second_before_the_answer() {
    let mut m = ConnectionManager::new();
    assert!(m.tick(false));
    assert!(matches!(m.state(), ConnectionState::Connecting));
    assert!(!m.tick(false));
    assert!(!m.tick(false));
    assert_eq!(m.answer(true), ConnectOutcome::Established);
    assert!(m.is_connected());
    assert!(!m.tick(false));
}

#[test]
fn a_failed_attempt_is_tried_again_on_the_next_tick() {
    let mut m = ConnectionManager::new();
    assert!(m.tick(false));
    assert_eq!(m.answer(false), ConnectOutcome::Failed);
    assert!(matches!(m.state(), ConnectionState::Disconnected));
    assert!(m.tick(false));
}

#[test]
fn no_attempt_behind_a_fatal_popup() {
    let mut m = ConnectionManager::new();
    assert!(!m.tick(true));
    assert!(matches!(m.state(), ConnectionState::Disconnected));
}

#[test]
fn an_answer_without_an_attempt_is_dropped() {
    let mut m = ConnectionManager::new();
    assert_eq!(m.answer(true), ConnectOutcome::Ignored);
    assert!(!m.is_connected());
}

#[test]
fn a_dead_connection_is_noticed() {
    let mut m = ConnectionManager::new();
    m.tick(false);
    m.answer(true);
    assert!(!m.observe(true));
    assert!(m.is_connected());
    assert!(m.observe(false));
    assert!(!m.is_connected());
    assert!(!m.observe(false));
    assert!(m.tick(false));
}

#[test]
fn disconnect_is_idempotent() {
    let mut m = ConnectionManager::new();
    m.tick(false);
    m.answer(true);
    assert!(m.disconnect());
    assert!(matches!(m.state(), ConnectionState::Disconnected));
    assert!(!m.disconnect());
    assert!(matches!(m.state(), ConnectionState::Disconnected));
}

#[test]
fn a_fatal_error_is_final() {
    let mut m = ConnectionManager::new();
    m.fail_for_good("unsupported protocol".to_string());
    assert!(m.is_fatal());
    assert!(!m.tick(false));
    assert_eq!(m.answer(true), ConnectOutcome::Ignored);
    assert!(!m.observe(false));
    assert!(!m.disconnect());
    match m.state() {
        ConnectionState::Fatal(why) => assert_eq!(why, "unsupported protocol"),
        other => panic!("unexpected {:?}", other),
    }
}
