use clipboard2json::connection::{startup_check, ConnectionHandle, TeardownStep};
use clipboard2json::errors::WatchError;

/// Counts how often each teardown step was performed.
#[derive(Default)]
struct Teardowns {
    property_deletes: u32,
    window_destroys: u32,
    connection_closes: u32,
}

impl Teardowns {
    fn perform(&mut self, steps: Vec<TeardownStep>) {
        for step in steps {
            match step {
                TeardownStep::DeleteProperty { window, property } => {
                    assert_eq!((window, property), (10, 20));
                    self.property_deletes += 1;
                }
                TeardownStep::DestroyWindow { window } => {
                    assert_eq!(window, 10);
                    self.window_destroys += 1;
                }
                TeardownStep::CloseConnection => self.connection_closes += 1,
            }
        }
    }
}

#[test]
fn teardown_steps_come_once_and_in_order() {
    let mut conn = ConnectionHandle::new(10, 20);
    assert_eq!(conn.window(), 10);
    assert_eq!(conn.property(), 20);
    let steps = conn.close();
    assert_eq!(
        steps,
        vec![
            TeardownStep::DeleteProperty { window: 10, property: 20 },
            TeardownStep::DestroyWindow { window: 10 },
            TeardownStep::CloseConnection,
        ]
    );
}

#[test]
fn teardown_on_a_normal_exit_runs_exactly_once() {
    let mut observed = Teardowns::default();
    let mut conn = ConnectionHandle::new(10, 20);
    // The loop ends normally; its exit path tears the connection down, and
    // the surrounding drop guard asks once more.
    observed.perform(conn.close());
    observed.perform(conn.close());
    assert_eq!(observed.property_deletes, 1);
    assert_eq!(observed.window_destroys, 1);
    assert_eq!(observed.connection_closes, 1);
}

#[test]
fn teardown_on_an_abrupt_termination_runs_exactly_once() {
    let mut observed = Teardowns::default();
    let mut conn = ConnectionHandle::new(10, 20);
    // The loop is torn out from under the engine before its normal exit: the
    // normal exit path never runs, only the drop guard does, and it must
    // still release everything, once.
    observed.perform(conn.close());
    // A later duplicate request (a second guard, a belt-and-braces exit path)
    // releases nothing again.
    observed.perform(conn.close());
    assert_eq!(observed.property_deletes, 1);
    assert_eq!(observed.window_destroys, 1);
    assert_eq!(observed.connection_closes, 1);
}

#[test]
fn unreachable_server_is_a_fatal_connection_error() {
    let r = startup_check(false, true);
    assert_eq!(r, Err(WatchError::ConnectionError));
    assert!(WatchError::ConnectionError.is_fatal());
}

#[test]
fn missing_notification_capability_is_fatal() {
    let r = startup_check(true, false);
    assert_eq!(r, Err(WatchError::ExtensionUnavailable));
    assert!(WatchError::ExtensionUnavailable.is_fatal());
}

#[test]
fn reachable_server_with_capability_starts_up() {
    assert_eq!(startup_check(true, true), Ok(()));
}

#[test]
fn cycle_errors_are_not_fatal() {
    assert!(!WatchError::NoTargetsAvailable.is_fatal());
    assert!(!WatchError::UnsupportedIncrementalTransfer.is_fatal());
    assert!(!WatchError::DecodeError.is_fatal());
    assert!(!WatchError::SinkError.is_fatal());
    assert!(!WatchError::SinkError.message().is_empty());
}
