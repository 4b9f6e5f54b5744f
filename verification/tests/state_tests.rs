use genja_core::inventory::connections::ConnectionKey;
use genja_core::state::{
    ConnectionAttemptState, ConnectionFailureKind, ConnectionStatus, HostStatus, State,
    TaskAttemptState, TaskExecutionKey, TaskFailureKind, TaskStatus,
};
use genja_core::types::NatString;

#[test]
fn host_scope_defaults_to_in_scope() {
    let state = State::new();

    assert!(state.is_in_scope("router1"));
}

#[test]
fn host_scope_can_be_marked_failed_and_restored() {
    let mut state = State::new();

    state.mark_failed("router1");
    assert!(!state.is_in_scope("router1"));
    assert_eq!(state.host_status("router1"), Some(HostStatus::Failed));

    state.mark_in_scope("router1");
    assert!(state.is_in_scope("router1"));
    assert_eq!(state.host_status("router1"), Some(HostStatus::InScope));
}

#[test]
fn host_scope_accepts_natstring_inputs() {
    let mut state = State::new();
    let host = NatString::from("router1");

    state.mark_failed(host.clone().as_str());

    assert_eq!(state.host_status_key(&host), Some(HostStatus::Failed));
    assert!(!state.is_in_scope_key(&host));
}

#[test]
fn host_statuses_and_mark_in_scope_key_reflect_latest_scope() {
    let mut state = State::new();
    let host = NatString::from("router1");

    state.mark_failed(host.as_str());
    assert_eq!(state.host_status_key(&host), Some(HostStatus::Failed));

    state.mark_in_scope_key(&host);
    assert_eq!(state.host_status_key(&host), Some(HostStatus::InScope));
}

#[test]
fn stores_connection_state_by_host_and_plugin() {
    let mut state = State::new();
    let connection_state =
        ConnectionAttemptState::new(ConnectionStatus::Failed(ConnectionFailureKind::Timeout))
            .with_attempts(3)
            .with_last_error("timed out");

    state.set_connection_state("router1", "ssh", connection_state.clone());

    assert_eq!(state.connection_state("router1", "ssh"), Some(connection_state));
}

#[test]
fn stores_connection_state_by_key() {
    let mut state = State::new();
    let key = ConnectionKey::new("router1", "ssh");
    let connection_state = ConnectionAttemptState::new(ConnectionStatus::Connected).with_attempts(2);

    state.set_connection_state_key(key.clone(), connection_state.clone());

    assert_eq!(state.connection_state_key(&key), Some(connection_state));
}

#[test]
fn connection_states_accessor_exposes_stored_entries() {
    let mut state = State::new();
    let key = ConnectionKey::new("router1", "ssh");
    let connection_state = ConnectionAttemptState::new(ConnectionStatus::RetryPending)
        .with_attempts(1)
        .with_last_error("timed out");

    state.set_connection_state_key(key.clone(), connection_state.clone());

    assert_eq!(state.connection_state_key(&key), Some(connection_state));
}

#[test]
fn begin_connection_attempt_sets_connecting_and_increments_attempts() {
    let mut state = State::new();
    let key = ConnectionKey::new("router1", "ssh");

    state.begin_connection_attempt_key(key.clone());
    assert_eq!(
        state.connection_state_key(&key),
        Some(ConnectionAttemptState::new(ConnectionStatus::Connecting).with_attempts(1))
    );

    state.begin_connection_attempt_key(key.clone());
    assert_eq!(
        state.connection_state_key(&key),
        Some(ConnectionAttemptState::new(ConnectionStatus::Connecting).with_attempts(2))
    );
}

#[test]
fn mark_connection_connected_preserves_attempt_count() {
    let mut state = State::new();
    let key = ConnectionKey::new("router1", "ssh");

    state.begin_connection_attempt_key(key.clone());
    state.begin_connection_attempt_key(key.clone());
    state.mark_connection_connected_key(key.clone());

    assert_eq!(
        state.connection_state_key(&key),
        Some(ConnectionAttemptState::new(ConnectionStatus::Connected).with_attempts(2))
    );
}

#[test]
fn mark_connection_retry_pending_preserves_attempts_and_error() {
    let mut state = State::new();
    let key = ConnectionKey::new("router1", "ssh");

    state.begin_connection_attempt_key(key.clone());
    state.mark_connection_retry_pending_key(key.clone(), "timed out");

    assert_eq!(
        state.connection_state_key(&key),
        Some(
            ConnectionAttemptState::new(ConnectionStatus::RetryPending)
                .with_attempts(1)
                .with_last_error("timed out")
        )
    );
}

#[test]
fn mark_connection_failed_preserves_attempts_and_sets_failed_status() {
    let mut state = State::new();
    let key = ConnectionKey::new("router1", "ssh");

    state.begin_connection_attempt_key(key.clone());
    state.begin_connection_attempt_key(key.clone());
    state.mark_connection_failed_key(key.clone(), ConnectionFailureKind::Timeout, "timed out");

    assert_eq!(
        state.connection_state_key(&key),
        Some(
            ConnectionAttemptState::new(ConnectionStatus::Failed(ConnectionFailureKind::Timeout))
                .with_attempts(2)
                .with_last_error("timed out")
        )
    );
}

#[test]
fn mark_connection_connected_without_prior_attempts_uses_zero_attempts() {
    let mut state = State::new();
    let key = ConnectionKey::new("router1", "ssh");

    state.mark_connection_connected_key(key.clone());

    assert_eq!(
        state.connection_state_key(&key),
        Some(ConnectionAttemptState::new(ConnectionStatus::Connected).with_attempts(0))
    );
}

#[test]
fn mark_connection_retry_pending_without_prior_attempts_uses_zero_attempts() {
    let mut state = State::new();
    let key = ConnectionKey::new("router1", "ssh");

    state.mark_connection_retry_pending_key(key.clone(), "timed out");

    assert_eq!(
        state.connection_state_key(&key),
        Some(
            ConnectionAttemptState::new(ConnectionStatus::RetryPending)
                .with_attempts(0)
                .with_last_error("timed out")
        )
    );
}

#[test]
fn mark_connection_failed_without_prior_attempts_uses_zero_attempts() {
    let mut state = State::new();
    let key = ConnectionKey::new("router1", "ssh");

    state.mark_connection_failed_key(key.clone(), ConnectionFailureKind::Timeout, "timed out");

    assert_eq!(
        state.connection_state_key(&key),
        Some(
            ConnectionAttemptState::new(ConnectionStatus::Failed(ConnectionFailureKind::Timeout))
                .with_attempts(0)
                .with_last_error("timed out")
        )
    );
}

#[test]
fn begin_connection_attempt_wrapper_increments_attempts() {
    let mut state = State::new();

    state.begin_connection_attempt("router1", "ssh");
    state.begin_connection_attempt("router1", "ssh");

    assert_eq!(
        state.connection_state("router1", "ssh"),
        Some(ConnectionAttemptState::new(ConnectionStatus::Connecting).with_attempts(2))
    );
}

#[test]
fn mark_connection_connected_wrapper_preserves_attempt_count() {
    let mut state = State::new();

    state.begin_connection_attempt("router1", "ssh");
    state.begin_connection_attempt("router1", "ssh");
    state.mark_connection_connected("router1", "ssh");

    assert_eq!(
        state.connection_state("router1", "ssh"),
        Some(ConnectionAttemptState::new(ConnectionStatus::Connected).with_attempts(2))
    );
}

#[test]
fn mark_connection_retry_pending_wrapper_preserves_attempts_and_error() {
    let mut state = State::new();

    state.begin_connection_attempt("router1", "ssh");
    state.mark_connection_retry_pending("router1", "ssh", "timed out");

    assert_eq!(
        state.connection_state("router1", "ssh"),
        Some(
            ConnectionAttemptState::new(ConnectionStatus::RetryPending)
                .with_attempts(1)
                .with_last_error("timed out")
        )
    );
}

#[test]
fn mark_connection_failed_wrapper_preserves_attempts_and_error() {
    let mut state = State::new();

    state.begin_connection_attempt("router1", "ssh");
    state.begin_connection_attempt("router1", "ssh");
    state.mark_connection_failed("router1", "ssh", ConnectionFailureKind::Timeout, "timed out");

    assert_eq!(
        state.connection_state("router1", "ssh"),
        Some(
            ConnectionAttemptState::new(ConnectionStatus::Failed(ConnectionFailureKind::Timeout))
                .with_attempts(2)
                .with_last_error("timed out")
        )
    );
}

#[test]
fn stores_task_state_by_host_and_task() {
    let mut state = State::new();
    let task_state = TaskAttemptState::new(TaskStatus::Failed(TaskFailureKind::ParseFailed))
        .with_attempts(1)
        .with_last_error("failed to parse show version output");

    state.set_task_state("router1", "show_version", task_state.clone());

    assert_eq!(state.task_state("router1", "show_version"), Some(task_state));
}

#[test]
fn stores_task_state_by_key() {
    let mut state = State::new();
    let key = TaskExecutionKey::new("router1", "show_version");
    let task_state = TaskAttemptState::new(TaskStatus::Succeeded).with_attempts(1);

    state.set_task_state_key(key.clone(), task_state.clone());

    assert_eq!(state.task_state_key(&key), Some(task_state));
}

#[test]
fn task_states_accessor_exposes_stored_entries() {
    let mut state = State::new();
    let key = TaskExecutionKey::new("router1", "show_version");
    let task_state = TaskAttemptState::new(TaskStatus::Running).with_attempts(1);

    state.set_task_state_key(key.clone(), task_state.clone());

    assert_eq!(state.task_state_key(&key), Some(task_state));
}

#[test]
fn marking_one_host_leaves_other_hosts_in_scope() {
    let mut state = State::new();
    state.mark_failed("router1");
    assert!(!state.is_in_scope("router1"));
    assert!(state.is_in_scope("router2"));
    assert_eq!(state.host_status("router2"), None);
}

#[test]
fn attempts_are_counted_per_connection() {
    let mut state = State::new();
    state.begin_connection_attempt("router1", "ssh");
    state.begin_connection_attempt("router1", "ssh");
    state.begin_connection_attempt("router1", "netconf");
    assert_eq!(state.connection_state("router1", "ssh").map(|s| s.attempts), Some(2));
    assert_eq!(state.connection_state("router1", "netconf").map(|s| s.attempts), Some(1));
    assert_eq!(state.connection_state("router2", "ssh"), None);
}
