use kafka_fetch::{Action, ConnectionConfig, Event, FetchError, Fetcher, PartitionLocation, Phase};
use rdkafka::topic_partition_list::Offset;

fn fetcher_for(topic: &str, partition: i32, offset: i64) -> Fetcher {
    Fetcher::new(
        ConnectionConfig { brokers: "localhost:9092".to_string(), group_id: "group".to_string() },
        PartitionLocation { topic: topic.to_string(), partition, offset },
    )
}

/// A fetcher that is connected and assigned, waiting for its event.
fn polling(topic: &str, partition: i32, offset: i64) -> Fetcher {
    let mut fetcher = fetcher_for(topic, partition, offset);
    assert!(matches!(fetcher.step(Event::Start), Some(Action::Connect(_))));
    assert!(matches!(fetcher.step(Event::Connected), Some(Action::Assign(_))));
    assert!(matches!(fetcher.step(Event::Assigned), Some(Action::Poll)));
    assert_eq!(fetcher.phase(), Phase::Polling);
    fetcher
}

fn failure(action: Option<Action>) -> FetchError {
    match action {
        Some(Action::Fail(error)) => error,
        other => panic!("expected a failure, got {:?}", other),
    }
}

#[test]
fn new_fetcher_is_idle() {
    let fetcher = fetcher_for("orders", 0, 42);
    assert_eq!(fetcher.phase(), Phase::Idle);
    assert_eq!(fetcher.config().brokers, "localhost:9092");
    assert_eq!(fetcher.config().group_id, "group");
    assert_eq!(fetcher.location().topic, "orders");
    assert_eq!(fetcher.location().partition, 0);
    assert_eq!(fetcher.location().offset, 42);
}

#[test]
fn start_asks_for_a_connection() {
    let mut fetcher = fetcher_for("orders", 0, 42);
    match fetcher.step(Event::Start) {
        Some(Action::Connect(config)) => {
            assert_eq!(config.get("bootstrap.servers"), Some("localhost:9092"));
            assert_eq!(config.get("group.id"), Some("group"));
            assert_eq!(config.config_map().len(), 2);
        }
        other => panic!("expected a connection request, got {:?}", other),
    }
    assert_eq!(fetcher.phase(), Phase::Connecting);
}

#[test]
fn connection_is_followed_by_one_assignment() {
    let mut fetcher = fetcher_for("orders", 0, 42);
    fetcher.step(Event::Start);
    match fetcher.step(Event::Connected) {
        Some(Action::Assign(list)) => {
            let elements = list.elements();
            assert_eq!(elements.len(), 1);
            assert_eq!(elements[0].topic(), "orders");
            assert_eq!(elements[0].partition(), 0);
            assert_eq!(elements[0].offset(), Offset::Offset(42));
        }
        other => panic!("expected an assignment, got {:?}", other),
    }
    assert_eq!(fetcher.phase(), Phase::Assigning);
}

#[test]
fn fetch_delivers_payload_byte_for_byte() {
    let mut fetcher = polling("orders", 0, 42);
    let action = fetcher.step(Event::Record(Some(b"hello".to_vec())));
    match action {
        Some(Action::Deliver(bytes)) => {
            assert_eq!(bytes.len(), 5);
            assert_eq!(bytes, b"hello".to_vec());
        }
        other => panic!("expected the payload, got {:?}", other),
    }
    assert_eq!(fetcher.phase(), Phase::Done);
}

#[test]
fn fetch_delivers_arbitrary_bytes_unchanged() {
    let payload: Vec<u8> = vec![0, 255, 10, 13, 0, 128, 127];
    let mut fetcher = polling("orders", 3, 9);
    match fetcher.step(Event::Record(Some(payload.clone()))) {
        Some(Action::Deliver(bytes)) => assert_eq!(bytes, payload),
        other => panic!("expected the payload, got {:?}", other),
    }
}

#[test]
fn present_but_empty_payload_is_delivered() {
    let mut fetcher = polling("orders", 0, 42);
    match fetcher.step(Event::Record(Some(Vec::new()))) {
        Some(Action::Deliver(bytes)) => assert!(bytes.is_empty()),
        other => panic!("expected an empty payload, got {:?}", other),
    }
}

#[test]
fn tombstone_is_an_empty_payload_error() {
    let mut fetcher = polling("orders", 0, 42);
    let error = failure(fetcher.step(Event::Record(None)));
    assert_eq!(error, FetchError::EmptyPayload);
    assert_eq!(error.message(), "Empty payload");
    assert_eq!(fetcher.phase(), Phase::Done);
}

#[test]
fn failed_connection_ends_the_fetch() {
    let mut fetcher = fetcher_for("orders", 0, 42);
    fetcher.step(Event::Start);
    let error = failure(fetcher.step(Event::ConnectFailed("broker unreachable".to_string())));
    assert_eq!(error, FetchError::Connection("broker unreachable".to_string()));
    assert_eq!(fetcher.phase(), Phase::Done);
    assert!(fetcher.step(Event::Connected).is_none());
    assert!(fetcher.step(Event::Assigned).is_none());
    assert!(fetcher.step(Event::Record(Some(vec![1]))).is_none());
    assert_eq!(fetcher.phase(), Phase::Done);
}

#[test]
fn refused_assignment_ends_the_fetch() {
    let mut fetcher = fetcher_for("orders", 99, 42);
    fetcher.step(Event::Start);
    assert!(matches!(fetcher.step(Event::Connected), Some(Action::Assign(_))));
    let error = failure(fetcher.step(Event::AssignFailed("unknown partition".to_string())));
    assert_eq!(error, FetchError::Assignment("unknown partition".to_string()));
    assert_eq!(fetcher.phase(), Phase::Done);
    assert!(fetcher.step(Event::Assigned).is_none());
}

#[test]
fn unassignable_location_fails_without_an_assignment() {
    let mut fetcher = fetcher_for("orders", -1, 42);
    fetcher.step(Event::Start);
    let error = failure(fetcher.step(Event::Connected));
    assert_eq!(error, FetchError::Assignment("Partition index is negative".to_string()));
    assert_eq!(fetcher.phase(), Phase::Done);

    let mut fetcher = fetcher_for("orders", 0, -5);
    fetcher.step(Event::Start);
    let error = failure(fetcher.step(Event::Connected));
    assert_eq!(error, FetchError::Assignment("Offset is negative".to_string()));

    let mut fetcher = fetcher_for("or\0ders", 0, 5);
    fetcher.step(Event::Start);
    let error = failure(fetcher.step(Event::Connected));
    assert_eq!(error, FetchError::Assignment("Topic name holds a NUL character".to_string()));
}

#[test]
fn error_event_is_a_poll_error() {
    let mut fetcher = polling("orders", 0, 42);
    let error = failure(fetcher.step(Event::PollFailed("offset out of range".to_string())));
    assert_eq!(error, FetchError::Poll("offset out of range".to_string()));
    assert_eq!(fetcher.phase(), Phase::Done);
}

#[test]
fn silent_poll_is_a_no_event_error() {
    let mut fetcher = polling("orders", 0, 42);
    let error = failure(fetcher.step(Event::Silence));
    assert_eq!(error, FetchError::NoEvent);
    assert_eq!(error.message(), "Nothing came from poll");
    assert_eq!(fetcher.phase(), Phase::Done);
}

#[test]
fn events_out_of_place_change_nothing() {
    let mut fetcher = fetcher_for("orders", 0, 42);
    assert!(fetcher.step(Event::Connected).is_none());
    assert!(fetcher.step(Event::Assigned).is_none());
    assert!(fetcher.step(Event::Record(Some(vec![1, 2]))).is_none());
    assert!(fetcher.step(Event::Silence).is_none());
    assert_eq!(fetcher.phase(), Phase::Idle);

    fetcher.step(Event::Start);
    assert!(fetcher.step(Event::Start).is_none());
    assert!(fetcher.step(Event::AssignFailed("x".to_string())).is_none());
    assert!(fetcher.step(Event::PollFailed("x".to_string())).is_none());
    assert_eq!(fetcher.phase(), Phase::Connecting);

    fetcher.step(Event::Connected);
    assert!(fetcher.step(Event::Connected).is_none());
    assert!(fetcher.step(Event::ConnectFailed("x".to_string())).is_none());
    assert!(fetcher.step(Event::Record(None)).is_none());
    assert_eq!(fetcher.phase(), Phase::Assigning);

    fetcher.step(Event::Assigned);
    assert!(fetcher.step(Event::Start).is_none());
    assert!(fetcher.step(Event::Assigned).is_none());
    assert!(fetcher.step(Event::AssignFailed("x".to_string())).is_none());
    assert_eq!(fetcher.phase(), Phase::Polling);
}

#[test]
fn outcome_is_final() {
    let mut fetcher = polling("orders", 0, 42);
    assert!(matches!(fetcher.step(Event::Record(Some(vec![7]))), Some(Action::Deliver(_))));
    assert!(fetcher.step(Event::Start).is_none());
    assert!(fetcher.step(Event::Record(Some(vec![8]))).is_none());
    assert!(fetcher.step(Event::Record(None)).is_none());
    assert!(fetcher.step(Event::Silence).is_none());
    assert_eq!(fetcher.phase(), Phase::Done);
}

#[test]
fn failed_fetch_never_delivers() {
    let endings = vec![
        Event::Record(None),
        Event::PollFailed("broker error".to_string()),
        Event::Silence,
    ];
    for ending in endings {
        let mut fetcher = polling("orders", 0, 42);
        assert!(matches!(fetcher.step(ending), Some(Action::Fail(_))));
        assert!(fetcher.step(Event::Record(Some(b"late".to_vec()))).is_none());
    }
}

#[test]
fn fetcher_keeps_its_request() {
    let mut fetcher = polling("orders", 4, 17);
    fetcher.step(Event::Silence);
    assert_eq!(fetcher.config().brokers, "localhost:9092");
    assert_eq!(fetcher.location().topic, "orders");
    assert_eq!(fetcher.location().partition, 4);
    assert_eq!(fetcher.location().offset, 17);
}
