use tokio::sync::broadcast;
use tokio::sync::broadcast::error::TryRecvError;
use tokio::sync::mpsc;
use tokio::sync::watch;
use tungstenite::Message;
use webviz_server::connection::{ConnAction, ConnEvent, ConnState};
use webviz_server::lifecycle::{Effect, Phase};
use webviz_server::{
    drain_client_message_bytes, finish_start, get_last_error_string, is_server_running,
    shutdown_server, start_server, try_send_messages, HubError, MessagePayload, Registry,
    ServerState, StartStep,
};

const ALREADY_RUNNING: &str = "Server is already running, can't invoke start_server().";

struct FarEnds {
    bus: broadcast::Sender<Vec<Message>>,
    mailbox: mpsc::UnboundedSender<Message>,
    shutdown: watch::Receiver<bool>,
}

fn new_handles() -> (ServerState, FarEnds) {
    let (bus, first) = broadcast::channel(16);
    drop(first);
    let (mailbox_tx, mailbox_rx) = mpsc::unbounded_channel();
    let (shutdown_tx, shutdown_rx) = watch::channel(false);
    let state = ServerState::new(bus.clone(), mailbox_rx, shutdown_tx);
    (state, FarEnds { bus, mailbox: mailbox_tx, shutdown: shutdown_rx })
}

fn started(registry: &mut Registry) -> FarEnds {
    let (handles, ends) = new_handles();
    assert_eq!(start_server(Some(&mut *registry), handles), StartStep::Launch);
    assert!(finish_start(Some(&mut *registry), Ok(())));
    ends
}

fn complete_shutdown(registry: &mut Registry) {
    shutdown_server(Some(&mut *registry));
    assert_eq!(registry.observe_shutdown(), Effect::BeginTeardown);
    assert_eq!(registry.finish_teardown(), Effect::FinishTeardown);
}

#[test]
fn lifecycle_start_shutdown_start() {
    let mut registry = Registry::new();
    assert!(!is_server_running(Some(&registry)));
    let ends = started(&mut registry);
    assert!(is_server_running(Some(&registry)));
    assert!(!*ends.shutdown.borrow());

    shutdown_server(Some(&mut registry));
    assert!(*ends.shutdown.borrow());
    assert!(is_server_running(Some(&registry)));
    assert_eq!(registry.observe_shutdown(), Effect::BeginTeardown);
    assert!(is_server_running(Some(&registry)));
    assert_eq!(registry.finish_teardown(), Effect::FinishTeardown);
    assert!(!is_server_running(Some(&registry)));
    assert_eq!(registry.phase(), Phase::Idle);

    let again = started(&mut registry);
    assert!(is_server_running(Some(&registry)));
    assert!(!*again.shutdown.borrow());
}

#[test]
fn broadcast_reaches_two_clients_in_order() {
    let mut registry = Registry::new();
    let ends = started(&mut registry);
    let mut first = ends.bus.subscribe();
    let mut second = ends.bus.subscribe();

    let sent = try_send_messages(
        Some(&registry),
        vec![MessagePayload::Text("a".to_string()), MessagePayload::Binary(vec![0x01, 0x02])],
    );
    assert_eq!(sent, Ok(()));

    let expected = vec![Message::Text("a".to_string()), Message::Binary(vec![0x01, 0x02])];
    for client in [&mut first, &mut second] {
        let batch = client.try_recv().unwrap();
        assert_eq!(batch, expected);
        let (state, action) = ConnState::Running.step(ConnEvent::Outbound(batch));
        assert_eq!(state, ConnState::Running);
        assert_eq!(action, ConnAction::Write(expected.clone()));
        assert!(matches!(client.try_recv(), Err(TryRecvError::Empty)));
    }
}

#[test]
fn drain_returns_what_two_clients_sent() {
    let mut registry = Registry::new();
    let ends = started(&mut registry);
    let client_a = ends.mailbox.clone();
    let client_b = ends.mailbox.clone();
    client_a.send(Message::Text("hi".to_string())).unwrap();
    client_b.send(Message::Binary(vec![0xFF])).unwrap();

    let drained = drain_client_message_bytes(Some(&mut registry));
    assert_eq!(drained.len(), 2);
    assert!(drained.contains(&MessagePayload::Text("hi".to_string())));
    assert!(drained.contains(&MessagePayload::Binary(vec![0xFF])));

    assert_eq!(drain_client_message_bytes(Some(&mut registry)), vec![]);
}

#[test]
fn publish_with_no_subscribers_succeeds() {
    let mut registry = Registry::new();
    let ends = started(&mut registry);
    assert_eq!(ends.bus.receiver_count(), 0);
    let sent = try_send_messages(Some(&registry), vec![MessagePayload::Text("x".to_string())]);
    assert_eq!(sent, Ok(()));
    assert_eq!(get_last_error_string(Some(&registry)), None);
}

#[test]
fn lagging_client_does_not_hold_up_the_others() {
    let mut registry = Registry::new();
    let ends = started(&mut registry);
    let mut slow = ends.bus.subscribe();
    let mut quick = ends.bus.subscribe();

    for round in 0..20u8 {
        let sent = try_send_messages(Some(&registry), vec![MessagePayload::Binary(vec![round])]);
        assert_eq!(sent, Ok(()));
        assert_eq!(quick.try_recv().unwrap(), vec![Message::Binary(vec![round])]);
    }

    let missed = match slow.try_recv() {
        Err(TryRecvError::Lagged(missed)) => missed,
        other => panic!("the slow client should lag, got {:?}", other),
    };
    assert_eq!(missed, 4);
    let (state, action) = ConnState::Running.step(ConnEvent::Lagged(missed));
    assert_eq!(state, ConnState::Running);
    assert_eq!(action, ConnAction::RecordLag(4));
    registry.record(action.to_record().unwrap());
    assert_eq!(
        get_last_error_string(Some(&registry)),
        Some("A client fell behind the broadcast bus and skipped batches.".to_string())
    );

    assert_eq!(slow.try_recv().unwrap(), vec![Message::Binary(vec![4])]);
    assert!(is_server_running(Some(&registry)));
    let sent = try_send_messages(Some(&registry), vec![MessagePayload::Text("on".to_string())]);
    assert_eq!(sent, Ok(()));
    assert_eq!(quick.try_recv().unwrap(), vec![Message::Text("on".to_string())]);
}

#[test]
fn double_start_is_refused() {
    let mut registry = Registry::new();
    let (first, _first_ends) = new_handles();
    let (second, _second_ends) = new_handles();
    assert_eq!(start_server(Some(&mut registry), first), StartStep::Launch);
    assert!(finish_start(Some(&mut registry), Ok(())));
    assert_eq!(get_last_error_string(Some(&registry)), None);

    assert_eq!(
        start_server(Some(&mut registry), second),
        StartStep::Refused(HubError::AlreadyRunning)
    );
    assert!(!finish_start(Some(&mut registry), Ok(())));
    assert_eq!(get_last_error_string(Some(&registry)), Some(ALREADY_RUNNING.to_string()));
    assert!(is_server_running(Some(&registry)));
}

#[test]
fn shutdown_any_number_of_times_never_fails() {
    let mut registry = Registry::new();
    shutdown_server(None);
    shutdown_server(Some(&mut registry));
    shutdown_server(Some(&mut registry));
    assert_eq!(registry.phase(), Phase::Idle);
    assert!(!registry.shutdown_requested());

    let (handles, ends) = new_handles();
    assert_eq!(start_server(Some(&mut registry), handles), StartStep::Launch);
    shutdown_server(Some(&mut registry));
    shutdown_server(Some(&mut registry));
    assert_eq!(registry.phase(), Phase::Starting);
    assert!(registry.shutdown_requested());
    assert!(*ends.shutdown.borrow());
    assert!(finish_start(Some(&mut registry), Ok(())));
    assert!(registry.shutdown_requested());

    for _ in 0..5 {
        shutdown_server(Some(&mut registry));
    }
    assert_eq!(registry.phase(), Phase::Running);
    assert_eq!(registry.observe_shutdown(), Effect::BeginTeardown);
    shutdown_server(Some(&mut registry));
    assert_eq!(registry.phase(), Phase::Stopping);
    assert_eq!(registry.finish_teardown(), Effect::FinishTeardown);
    assert_eq!(registry.finish_teardown(), Effect::Nothing);
    shutdown_server(Some(&mut registry));
    assert_eq!(registry.phase(), Phase::Idle);
    assert_eq!(get_last_error_string(Some(&registry)), None);
}

#[test]
fn request_shutdown_signals_once() {
    let mut registry = Registry::new();
    let _ends = started(&mut registry);
    assert_eq!(registry.request_shutdown(), Effect::Signal);
    assert_eq!(registry.request_shutdown(), Effect::Nothing);
    assert_eq!(registry.request_shutdown(), Effect::Nothing);
}

#[test]
fn start_is_gated_by_the_lifecycle() {
    let mut registry = Registry::new();
    let _ends = started(&mut registry);
    let (second, _) = new_handles();
    assert_eq!(
        start_server(Some(&mut registry), second),
        StartStep::Refused(HubError::AlreadyRunning)
    );
    shutdown_server(Some(&mut registry));
    assert_eq!(registry.observe_shutdown(), Effect::BeginTeardown);
    let (third, _) = new_handles();
    assert_eq!(
        start_server(Some(&mut registry), third),
        StartStep::Refused(HubError::AlreadyRunning)
    );
    assert_eq!(registry.finish_teardown(), Effect::FinishTeardown);
    let (fourth, _) = new_handles();
    assert_eq!(start_server(Some(&mut registry), fourth), StartStep::Launch);
    assert!(!is_server_running(Some(&registry)));
    assert!(finish_start(Some(&mut registry), Ok(())));
    assert!(is_server_running(Some(&registry)));
}

#[test]
fn failed_launch_rolls_back_and_records_the_cause() {
    let mut registry = Registry::new();
    let (handles, ends) = new_handles();
    assert_eq!(start_server(Some(&mut registry), handles), StartStep::Launch);
    assert!(registry.has_supervisor());
    assert!(!finish_start(Some(&mut registry), Err("address in use".to_string())));
    assert!(!registry.has_supervisor());
    assert!(!is_server_running(Some(&registry)));
    assert_eq!(get_last_error_string(Some(&registry)), Some("address in use".to_string()));
    assert!(ends.mailbox.is_closed());

    let _again = started(&mut registry);
    assert!(is_server_running(Some(&registry)));
    assert_eq!(get_last_error_string(Some(&registry)), Some("address in use".to_string()));
}

#[test]
fn finish_start_outside_a_start_changes_nothing() {
    let mut registry = Registry::new();
    assert!(!finish_start(Some(&mut registry), Ok(())));
    assert!(!finish_start(Some(&mut registry), Err("late".to_string())));
    assert_eq!(registry.phase(), Phase::Idle);
    assert_eq!(get_last_error_string(Some(&registry)), None);
    assert!(!finish_start(None, Ok(())));
}

#[test]
fn without_the_registry_every_operation_answers_at_once() {
    let (handles, _ends) = new_handles();
    assert_eq!(start_server(None, handles), StartStep::Refused(HubError::RegistryUnavailable));
    assert!(!is_server_running(None));
    shutdown_server(None);
    assert_eq!(get_last_error_string(None), None);
    assert_eq!(
        try_send_messages(None, vec![MessagePayload::Text("x".to_string())]),
        Err(HubError::RegistryUnavailable)
    );
    assert_eq!(drain_client_message_bytes(None), vec![]);
}

#[test]
fn with_no_supervisor_send_fails_and_drain_is_empty() {
    let mut registry = Registry::new();
    assert_eq!(
        try_send_messages(Some(&registry), vec![MessagePayload::Binary(vec![1])]),
        Err(HubError::RegistryUnavailable)
    );
    assert_eq!(drain_client_message_bytes(Some(&mut registry)), vec![]);
    assert_eq!(get_last_error_string(Some(&registry)), None);
}

#[test]
fn empty_drain_returns_at_once() {
    let mut registry = Registry::new();
    let _ends = started(&mut registry);
    assert_eq!(drain_client_message_bytes(Some(&mut registry)), vec![]);
    assert_eq!(drain_client_message_bytes(Some(&mut registry)), vec![]);
    assert!(is_server_running(Some(&registry)));
}

#[test]
fn control_frames_never_reach_the_host() {
    let mut registry = Registry::new();
    let ends = started(&mut registry);
    ends.mailbox.send(Message::Ping(vec![1, 2])).unwrap();
    ends.mailbox.send(Message::Text("one".to_string())).unwrap();
    ends.mailbox.send(Message::Pong(vec![])).unwrap();
    ends.mailbox.send(Message::Close(None)).unwrap();
    ends.mailbox.send(Message::Binary(vec![9])).unwrap();
    ends.mailbox.send(Message::Ping(vec![])).unwrap();
    assert_eq!(
        drain_client_message_bytes(Some(&mut registry)),
        vec![MessagePayload::Text("one".to_string()), MessagePayload::Binary(vec![9])]
    );

    ends.mailbox.send(Message::Close(None)).unwrap();
    ends.mailbox.send(Message::Pong(vec![7])).unwrap();
    assert_eq!(drain_client_message_bytes(Some(&mut registry)), vec![]);
}

#[test]
fn sent_payload_comes_back_unchanged() {
    let mut registry = Registry::new();
    let ends = started(&mut registry);
    let mut client = ends.bus.subscribe();
    let payloads = vec![
        MessagePayload::Text("héllo \u{1F600}".to_string()),
        MessagePayload::Binary(vec![0, 255, 128]),
        MessagePayload::Text(String::new()),
        MessagePayload::Binary(vec![]),
    ];
    assert_eq!(try_send_messages(Some(&registry), payloads.clone()), Ok(()));
    for message in client.try_recv().unwrap() {
        ends.mailbox.send(message).unwrap();
    }
    assert_eq!(drain_client_message_bytes(Some(&mut registry)), payloads);
}

#[test]
fn drain_keeps_the_order_of_one_client() {
    let mut registry = Registry::new();
    let ends = started(&mut registry);
    for n in 0..50u8 {
        ends.mailbox.send(Message::Binary(vec![n])).unwrap();
    }
    let drained = drain_client_message_bytes(Some(&mut registry));
    let expected: Vec<MessagePayload> = (0..50u8).map(|n| MessagePayload::Binary(vec![n])).collect();
    assert_eq!(drained, expected);
}

#[test]
fn last_error_keeps_the_most_recent_and_is_not_cleared_by_reading() {
    let mut registry = Registry::new();
    assert_eq!(get_last_error_string(Some(&registry)), None);
    registry.record(HubError::ConnectionLag);
    registry.record(HubError::ListenerFailed);
    let text = "The listening socket failed; the server is shutting down.".to_string();
    assert_eq!(get_last_error_string(Some(&registry)), Some(text.clone()));
    assert_eq!(get_last_error_string(Some(&registry)), Some(text));
    assert_eq!(registry.phase(), Phase::Idle);
}

#[test]
fn listener_failure_shuts_the_supervisor_down() {
    let mut registry = Registry::new();
    assert_eq!(registry.listener_failed(), Effect::Nothing);
    let ends = started(&mut registry);
    assert_eq!(registry.listener_failed(), Effect::ListenerDown);
    assert!(*ends.shutdown.borrow());
    assert!(registry.shutdown_requested());
    assert_eq!(
        get_last_error_string(Some(&registry)),
        Some("The listening socket failed; the server is shutting down.".to_string())
    );
    assert_eq!(registry.observe_shutdown(), Effect::BeginTeardown);
    assert_eq!(registry.listener_failed(), Effect::Nothing);
    assert_eq!(registry.finish_teardown(), Effect::FinishTeardown);
    assert!(!is_server_running(Some(&registry)));
}

#[test]
fn shutdown_is_not_observed_before_it_is_requested() {
    let mut registry = Registry::new();
    let _ends = started(&mut registry);
    assert_eq!(registry.observe_shutdown(), Effect::Nothing);
    assert_eq!(registry.finish_teardown(), Effect::Nothing);
    assert_eq!(registry.phase(), Phase::Running);
}

#[test]
fn teardown_drops_the_handles() {
    let mut registry = Registry::new();
    let ends = started(&mut registry);
    assert!(!ends.mailbox.is_closed());
    complete_shutdown(&mut registry);
    assert!(ends.mailbox.is_closed());
    assert!(!registry.has_supervisor());
    assert_eq!(
        try_send_messages(Some(&registry), vec![MessagePayload::Text("x".to_string())]),
        Err(HubError::RegistryUnavailable)
    );
}

#[test]
fn one_teardown_for_each_successful_start() {
    let mut registry = Registry::new();
    let mut went_live = 0;
    let mut torn_down = 0;
    for round in 0..3 {
        let (handles, _ends) = new_handles();
        if start_server(Some(&mut registry), handles) == StartStep::Launch {
            if finish_start(Some(&mut registry), Ok(())) {
                went_live += 1;
            }
        }
        for _ in 0..round + 1 {
            shutdown_server(Some(&mut registry));
            registry.observe_shutdown();
            if registry.finish_teardown() == Effect::FinishTeardown {
                torn_down += 1;
            }
        }
    }
    assert_eq!(went_live, 3);
    assert_eq!(torn_down, 3);
}
