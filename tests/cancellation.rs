use rmcp_core::cancellation::dispatch_notification;
use rmcp_core::roles::{ClientNotification, RoleServer, ServerInfo, ServerNotification};
use rmcp_core::services::BasicServer;
use rmcp_core::{
    CancellationConvertible, CancellationRegistry, CancelledNotification, NumberOrString,
    ProgressToken,
};

fn cancel_of(id: NumberOrString) -> CancelledNotification {
    CancelledNotification::new(id, Some("user aborted".to_string()))
}

#[test]
fn in_flight_handler_observes_cancellation() {
    let mut reg = CancellationRegistry::new();
    reg.begin(NumberOrString::Number(7));
    reg.begin(NumberOrString::Number(8));
    assert!(!reg.is_cancelled(&NumberOrString::Number(7)));
    let n = ClientNotification::from_cancelled(cancel_of(NumberOrString::Number(7)));
    assert_eq!(reg.deliver(n), Ok(true));
    assert!(reg.is_cancelled(&NumberOrString::Number(7)));
    assert!(!reg.is_cancelled(&NumberOrString::Number(8)));
}

#[test]
fn cancellation_of_unknown_request_is_ignored() {
    let mut reg = CancellationRegistry::new();
    reg.begin(NumberOrString::Number(1));
    assert!(!reg.cancel(&cancel_of(NumberOrString::Number(2))));
    assert!(!reg.is_cancelled(&NumberOrString::Number(2)));
    assert!(!reg.is_cancelled(&NumberOrString::Number(1)));
}

#[test]
fn number_and_string_ids_are_distinct() {
    let mut reg = CancellationRegistry::new();
    reg.begin(NumberOrString::String("7".to_string()));
    reg.begin(NumberOrString::Number(7));
    assert!(reg.cancel(&cancel_of(NumberOrString::String("7".to_string()))));
    assert!(reg.is_cancelled(&NumberOrString::String("7".to_string())));
    assert!(!reg.is_cancelled(&NumberOrString::Number(7)));
    assert!(NumberOrString::Number(3).same_as(&NumberOrString::Number(3)));
    assert!(!NumberOrString::Number(3).same_as(&NumberOrString::String("3".to_string())));
}

#[test]
fn other_notification_is_handed_back() {
    let mut reg = CancellationRegistry::new();
    reg.begin(NumberOrString::Number(4));
    let n = ServerNotification::Progress { token: ProgressToken(NumberOrString::Number(4)), progress: 10 };
    assert_eq!(reg.deliver(n.clone()), Err(n));
    assert!(!reg.is_cancelled(&NumberOrString::Number(4)));
}

#[test]
fn finished_request_is_forgotten() {
    let mut reg = CancellationRegistry::new();
    reg.begin(NumberOrString::Number(5));
    assert!(reg.cancel(&cancel_of(NumberOrString::Number(5))));
    reg.finish(&NumberOrString::Number(5));
    assert!(!reg.is_cancelled(&NumberOrString::Number(5)));
    assert!(!reg.cancel(&cancel_of(NumberOrString::Number(5))));
    reg.begin(NumberOrString::Number(5));
    assert!(!reg.is_cancelled(&NumberOrString::Number(5)));
}

#[test]
fn begin_twice_keeps_signal() {
    let mut reg = CancellationRegistry::new();
    reg.begin(NumberOrString::Number(6));
    assert!(reg.cancel(&cancel_of(NumberOrString::Number(6))));
    reg.begin(NumberOrString::Number(6));
    assert!(reg.is_cancelled(&NumberOrString::Number(6)));
}

fn hub() -> BasicServer {
    BasicServer { info: ServerInfo { name: "hub".to_string(), version: "1".to_string() } }
}

#[test]
fn server_cancellation_reaches_in_flight_request() {
    let s = hub();
    let mut reg = CancellationRegistry::new();
    reg.begin(NumberOrString::Number(7));
    reg.begin(NumberOrString::Number(9));
    let n = ClientNotification::from_cancelled(cancel_of(NumberOrString::Number(7)));
    assert_eq!(dispatch_notification::<RoleServer, _>(&s, &mut reg, n), Ok(()));
    assert!(reg.is_cancelled(&NumberOrString::Number(7)));
    assert!(!reg.is_cancelled(&NumberOrString::Number(9)));
}

#[test]
fn server_other_notification_leaves_signals() {
    let s = hub();
    let mut reg = CancellationRegistry::new();
    reg.begin(NumberOrString::Number(7));
    assert_eq!(
        dispatch_notification::<RoleServer, _>(&s, &mut reg, ClientNotification::Initialized),
        Ok(())
    );
    assert!(!reg.is_cancelled(&NumberOrString::Number(7)));
}
