use std::sync::Arc;

use rstmdb_studio::handle::{ConnectionHandle, LinkEvent, LinkState, Session, Stage};
use rstmdb_studio::operations::Operation;
use rstmdb_studio::retry::{Action, Event, Executor};

fn ready(id: u32) -> Session<u32> {
    Session::handshaken(id).reader_started()
}

#[test]
fn handle_swaps_whole_sessions() {
    let fresh = Session::handshaken(1u32);
    assert_eq!(fresh.stage(), Stage::Handshaken);
    let mut h = ConnectionHandle::new(fresh.reader_started());
    assert_eq!(*h.current(), 1);
    let old = h.replace(ready(2));
    assert_eq!(*old.conn(), 1);
    assert_eq!(old.into_conn(), 1);
    assert_eq!(*h.current(), 2);
}

#[test]
fn lifecycle_transitions() {
    assert_eq!(LinkState::Disconnected.next(LinkEvent::Connect), Some(LinkState::Connecting));
    assert_eq!(LinkState::Connecting.next(LinkEvent::Succeeded), Some(LinkState::Connected));
    assert_eq!(LinkState::Connecting.next(LinkEvent::Failed), Some(LinkState::Disconnected));
    assert_eq!(LinkState::Connected.next(LinkEvent::ConnectionLost), Some(LinkState::Reconnecting));
    assert_eq!(LinkState::Reconnecting.next(LinkEvent::Succeeded), Some(LinkState::Connected));
    assert_eq!(LinkState::Reconnecting.next(LinkEvent::Failed), Some(LinkState::Disconnected));
    assert_eq!(LinkState::Connected.next(LinkEvent::Connect), None);
    assert_eq!(LinkState::Disconnected.next(LinkEvent::ConnectionLost), None);
    assert!(LinkState::Connected.can_operate());
    assert!(!LinkState::Reconnecting.can_operate());
    assert!(!LinkState::Disconnected.can_operate());
}

// Three calls whose first invocations fail with connection-class errors at
// once: each reconnects once under the exclusive lock, none deadlocks, and
// every one finishes against a connection whose reader runs.
#[test]
fn concurrent_connection_failures_stay_consistent() {
    let rt = tokio::runtime::Runtime::new().unwrap();
    let swaps = rt.block_on(async {
        let handle = Arc::new(tokio::sync::RwLock::new(ConnectionHandle::new(ready(0))));
        let counter = Arc::new(tokio::sync::Mutex::new(0u32));
        let mut tasks = Vec::new();
        for _ in 0..3 {
            let handle = handle.clone();
            let counter = counter.clone();
            tasks.push(tokio::spawn(async move {
                let mut ex = Executor::new(Operation::Ping.name());
                let seen = *handle.read().await.current();
                let mut action = ex.step(Event::<u32>::Failed(format!("connection reset on {}", seen)));
                loop {
                    match action {
                        Action::Reconnect => {
                            let mut n = counter.lock().await;
                            *n += 1;
                            let mut h = handle.write().await;
                            let _old = h.replace(ready(*n));
                            drop(h);
                            action = ex.step(Event::Reconnected);
                        }
                        Action::Invoke => {
                            let conn = *handle.read().await.current();
                            action = ex.step(Event::Succeeded(conn));
                        }
                        Action::ReturnOk(v) => return Ok::<u32, String>(v),
                        Action::ReturnErr(e) => return Err(e.text()),
                    }
                }
            }));
        }
        for t in tasks {
            let r = t.await.unwrap();
            assert!(r.is_ok());
        }
        let n = *counter.lock().await;
        n
    });
    assert!(swaps >= 1 && swaps <= 3);
}
