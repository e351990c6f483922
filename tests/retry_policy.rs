use rstmdb_studio::connect::connect_failure;
use rstmdb_studio::error::ApiError;
use rstmdb_studio::operations::Operation;
use rstmdb_studio::retry::{Action, Event, Executor, Phase};

fn failed<T>(m: &str) -> Event<T> {
    Event::Failed(m.to_string())
}

#[test]
fn passthrough_returns_transport_result_once() {
    let mut ex = Executor::new(Operation::Info.name());
    let a = ex.step(Event::Succeeded(42u32));
    assert!(matches!(a, Action::ReturnOk(42)));
    assert_eq!(ex.invocations, 1);
    assert_eq!(ex.reconnects, 0);
    assert_eq!(ex.phase, Phase::Finished);
    assert!(!ex.accepts(&Event::Succeeded(1u32)));
    assert!(!ex.accepts(&Event::<u32>::Reconnected));
}

#[test]
fn ping_reconnects_once_then_succeeds() {
    let mut ex = Executor::new(Operation::Ping.name());
    assert!(matches!(ex.step(failed::<()>("connection reset")), Action::Reconnect));
    assert_eq!(ex.phase, Phase::Reconnecting);
    assert!(matches!(ex.step(Event::<()>::Reconnected), Action::Invoke));
    assert!(matches!(ex.step(Event::Succeeded(())), Action::ReturnOk(())));
    assert_eq!(ex.reconnects, 1);
    assert_eq!(ex.invocations, 2);
}

#[test]
fn second_connection_failure_is_not_retried() {
    let mut ex = Executor::new(Operation::WalStats.name());
    assert!(matches!(ex.step(failed::<u8>("not connected")), Action::Reconnect));
    assert!(matches!(ex.step(Event::<u8>::Reconnected), Action::Invoke));
    match ex.step(failed::<u8>("connection closed")) {
        Action::ReturnErr(e) => {
            assert_eq!(e.code, "RSTMDB_ERROR");
            assert_eq!(e.message, "WAL stats failed: connection closed");
        }
        _ => panic!("expected an error"),
    }
    assert_eq!(ex.phase, Phase::Finished);
    assert_eq!(ex.invocations, 2);
    assert_eq!(ex.reconnects, 1);
    assert!(!ex.accepts(&Event::<u8>::Reconnected));
    assert!(!ex.accepts(&failed::<u8>("not connected")));
}

#[test]
fn state_mismatch_is_typed_and_not_retried() {
    let op = Operation::ApplyEvent;
    let mut ex = Executor::new(op.name());
    let msg = "STATE_MISMATCH: expected pending got shipped";
    let e = match ex.step(failed::<()>(msg)) {
        Action::ReturnErr(e) => e,
        _ => panic!("expected an error"),
    };
    assert_eq!(ex.reconnects, 0);
    assert_eq!(ex.invocations, 1);
    let r = op.map_error(e);
    assert_eq!(r.code, "STATE_MISMATCH");
    assert!(r.message.contains(msg));
    assert_eq!(
        r.message,
        "RSTMDB_ERROR: Apply event failed: STATE_MISMATCH: expected pending got shipped"
    );
}

#[test]
fn apply_event_domain_kinds() {
    let op = Operation::ApplyEvent;
    let cases = [
        ("server error: INVALID_TRANSITION - no such event", "INVALID_TRANSITION"),
        ("server error: GUARD_FAILED - ctx.score > 50", "GUARD_FAILED"),
        ("instance not found", "NOT_FOUND"),
        ("request timeout", "RSTMDB_ERROR"),
    ];
    for (msg, code) in cases {
        let mut ex = Executor::new(op.name());
        let e = match ex.step(failed::<()>(msg)) {
            Action::ReturnErr(e) => e,
            _ => panic!("expected an error"),
        };
        assert_eq!(ex.reconnects, 0);
        assert_eq!(op.map_error(e).code, code);
    }
}

#[test]
fn get_instance_not_found() {
    let op = Operation::GetInstance;
    let mut ex = Executor::new(op.name());
    let e = match ex.step(failed::<()>("instance not found")) {
        Action::ReturnErr(e) => e,
        _ => panic!("expected an error"),
    };
    assert_eq!(ex.reconnects, 0);
    let r = op.map_error(e);
    assert_eq!(r.code, "NOT_FOUND");
    assert_eq!(r.message, "Instance not found");
}

#[test]
fn delete_instance_other_failure_unchanged() {
    let op = Operation::DeleteInstance;
    let r = op.map_error(ApiError::rstmdb_error("Delete instance failed: request timeout"));
    assert_eq!(r.code, "RSTMDB_ERROR");
    assert_eq!(r.message, "Delete instance failed: request timeout");
}

#[test]
fn unmapped_operations_keep_not_found_text() {
    let r = Operation::GetMachine.map_error(ApiError::rstmdb_error("Get machine failed: machine not found"));
    assert_eq!(r.code, "RSTMDB_ERROR");
}

#[test]
fn reconnect_failure_ends_the_call() {
    let mut ex = Executor::new(Operation::ListMachines.name());
    assert!(matches!(ex.step(failed::<()>("channel closed")), Action::Reconnect));
    let cause = connect_failure("I/O error: failed to lookup address information");
    match ex.step(Event::<()>::ReconnectFailed(cause)) {
        Action::ReturnErr(e) => {
            assert_eq!(e.code, "RSTMDB_ERROR");
            assert!(e.message.starts_with("Failed to connect to rstmdb"));
        }
        _ => panic!("expected an error"),
    }
    assert_eq!(ex.phase, Phase::Finished);
    assert_eq!(ex.invocations, 1);
    assert_eq!(ex.reconnects, 1);
    assert!(!ex.accepts(&Event::<()>::Reconnected));
}

#[test]
fn events_out_of_turn_are_refused() {
    let ex = Executor::new("Ping");
    assert!(ex.accepts(&Event::Succeeded(())));
    assert!(ex.accepts(&failed::<()>("x")));
    assert!(!ex.accepts(&Event::<()>::Reconnected));
    assert!(!ex.accepts(&Event::<()>::ReconnectFailed(ApiError::internal("x"))));
}

#[test]
fn operation_names() {
    assert_eq!(Operation::Ping.name(), "Ping");
    assert_eq!(Operation::ApplyEvent.name(), "Apply event");
    assert_eq!(Operation::WalRead.name(), "WAL read");
    assert_eq!(Operation::ListInstances.name(), "List instances");
}
