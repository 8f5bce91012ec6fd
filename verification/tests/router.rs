use healthgo_concurrent_processor::models::router::delay_millis;
use healthgo_concurrent_processor::Data;
use healthgo_concurrent_processor::Manager;
use healthgo_concurrent_processor::MessageState;
use healthgo_concurrent_processor::Worker;

fn data(worker: i32, message: &str, interval: i64, destination_worker: i32) -> Data {
    Data {
        worker,
        message: message.to_string(),
        interval,
        destination_worker,
    }
}

fn ready() -> Manager {
    let mut manager = Manager::new();
    assert_eq!(manager.initialize_workers(), vec![1, 2, 3, 4, 5]);
    manager
}

fn memory(manager: &Manager, id: i32) -> (i32, i32, String) {
    let worker = manager.worker(id).unwrap();
    (worker.id, worker.last_sender_id, worker.last_message.clone())
}

#[test]
fn new_worker_remembers_nothing() {
    let worker = Worker::new(3);
    assert_eq!(worker.id, 3);
    assert_eq!(worker.last_sender_id, 0);
    assert_eq!(worker.last_message, "");
}

#[test]
fn update_state_overwrites_the_memory() {
    let mut worker = Worker::new(2);
    worker.update_state(1, "Hello".to_string());
    assert_eq!(worker.id, 2);
    assert_eq!(worker.last_sender_id, 1);
    assert_eq!(worker.last_message, "Hello");

    worker.update_state(-7, "".to_string());
    assert_eq!(worker.id, 2);
    assert_eq!(worker.last_sender_id, -7);
    assert_eq!(worker.last_message, "");
}

#[test]
fn state_from_data_starts_with_no_memory() {
    let state = MessageState::from(data(4, "payload", 75, 5));
    assert_eq!(state.state.content, "payload");
    assert_eq!(state.state.last_heard, "");
    assert_eq!(state.timing.interval_ms, 75);
    assert_eq!(state.timing.total_elapsed_ms, 75);
    assert_eq!(state.routing.sender_id, 4);
    assert_eq!(state.routing.recipient_id, 5);
    assert_eq!(state.routing.last_sender_id, 0);
}

#[test]
fn new_manager_has_no_workers() {
    let manager = Manager::new();
    for id in -1..=7 {
        assert!(manager.worker(id).is_none());
    }
    assert_eq!(manager.total_elapsed(), 0);
}

#[test]
fn initialized_pool_holds_workers_one_to_five() {
    let manager = ready();
    for id in 1..=5 {
        assert_eq!(memory(&manager, id), (id, 0, String::new()));
    }
    assert!(manager.worker(0).is_none());
    assert!(manager.worker(6).is_none());
    assert!(manager.worker(-1).is_none());
    assert!(manager.worker(i32::MAX).is_none());
    assert!(manager.worker(i32::MIN).is_none());
}

#[test]
fn initializing_again_resets_the_memory() {
    let mut manager = ready();
    assert!(manager.dispatch(data(1, "Hello", 5, 2)).is_some());
    assert_eq!(memory(&manager, 2), (2, 1, "Hello".to_string()));

    assert_eq!(manager.initialize_workers(), vec![1, 2, 3, 4, 5]);
    assert_eq!(memory(&manager, 2), (2, 0, String::new()));
    assert_eq!(manager.total_elapsed(), 5);
}

#[test]
fn cleanup_drops_every_worker() {
    let mut manager = ready();
    assert!(manager.dispatch(data(1, "Hello", 5, 2)).is_some());
    manager.cleanup();
    for id in 1..=5 {
        assert!(manager.worker(id).is_none());
    }
    assert_eq!(manager.total_elapsed(), 5);
    assert!(manager.dispatch(data(1, "Hello", 5, 2)).is_none());
    assert_eq!(manager.total_elapsed(), 10);
}

#[test]
fn dispatch_updates_the_destination_and_emits_for_the_sender() {
    let mut manager = ready();
    let state = manager.dispatch(data(1, "Hello", 100, 2)).unwrap();

    assert_eq!(state.state.content, "Hello");
    assert_eq!(state.state.last_heard, "");
    assert_eq!(state.timing.interval_ms, 100);
    assert_eq!(state.timing.total_elapsed_ms, 100);
    assert_eq!(state.routing.sender_id, 1);
    assert_eq!(state.routing.recipient_id, 2);
    assert_eq!(state.routing.last_sender_id, 0);
    assert_eq!(memory(&manager, 2), (2, 1, "Hello".to_string()));
    assert_eq!(memory(&manager, 1), (1, 0, String::new()));
    assert_eq!(memory(&manager, 3), (3, 0, String::new()));
    assert_eq!(manager.total_elapsed(), 100);
}

#[test]
fn destination_memory_is_overwritten() {
    let mut manager = ready();
    assert!(manager.dispatch(data(1, "first", 1, 4)).is_some());
    assert!(manager.dispatch(data(3, "second", 1, 4)).is_some());
    assert_eq!(memory(&manager, 4), (4, 3, "second".to_string()));
}

#[test]
fn unknown_sender_is_dropped() {
    let mut manager = ready();
    assert!(manager.dispatch(data(1, "kept", 10, 2)).is_some());

    assert!(manager.dispatch(data(6, "Invalid", 100, 2)).is_none());
    assert!(manager.dispatch(data(0, "Invalid", 100, 2)).is_none());
    assert!(manager.dispatch(data(-3, "Invalid", 100, 9)).is_none());

    assert_eq!(memory(&manager, 2), (2, 1, "kept".to_string()));
    for id in [1, 3, 4, 5] {
        assert_eq!(memory(&manager, id), (id, 0, String::new()));
    }
    assert_eq!(manager.total_elapsed(), 310);
}

#[test]
fn unknown_destination_changes_no_memory_but_state_is_emitted() {
    let mut manager = ready();
    let state = manager.dispatch(data(1, "nowhere", 40, 6)).unwrap();

    assert_eq!(state.routing.sender_id, 1);
    assert_eq!(state.routing.recipient_id, 6);
    assert_eq!(state.state.content, "nowhere");
    assert_eq!(state.timing.total_elapsed_ms, 40);
    for id in 1..=5 {
        assert_eq!(memory(&manager, id), (id, 0, String::new()));
    }
    assert!(manager.worker(6).is_none());
}

#[test]
fn state_shows_the_memory_from_before_the_record() {
    let mut manager = ready();
    let first = manager.dispatch(data(1, "a", 1, 1)).unwrap();
    assert_eq!(first.state.last_heard, "");
    assert_eq!(first.routing.last_sender_id, 0);
    assert_eq!(memory(&manager, 1), (1, 1, "a".to_string()));

    let second = manager.dispatch(data(1, "b", 1, 1)).unwrap();
    assert_eq!(second.state.last_heard, "a");
    assert_eq!(second.routing.last_sender_id, 1);
    assert_eq!(memory(&manager, 1), (1, 1, "b".to_string()));
}

#[test]
fn negative_delays_lower_the_total() {
    let mut manager = ready();
    let first = manager.dispatch(data(1, "x", 10, 2)).unwrap();
    let second = manager.dispatch(data(1, "y", -25, 2)).unwrap();
    assert_eq!(first.timing.total_elapsed_ms, 10);
    assert_eq!(second.timing.total_elapsed_ms, -15);
    assert_eq!(second.timing.interval_ms, -25);
    assert_eq!(manager.total_elapsed(), -15);
}

#[test]
fn total_may_reach_the_largest_value() {
    let mut manager = ready();
    let first = manager.dispatch(data(1, "x", i64::MAX - 1, 2)).unwrap();
    let second = manager.dispatch(data(2, "y", 1, 3)).unwrap();
    assert_eq!(first.timing.total_elapsed_ms, i64::MAX - 1);
    assert_eq!(second.timing.total_elapsed_ms, i64::MAX);
}

#[test]
fn can_dispatch_tells_whether_the_total_fits() {
    let mut manager = ready();
    assert!(manager.can_dispatch(&data(1, "x", i64::MAX, 2)));
    assert!(manager.can_dispatch(&data(1, "x", i64::MIN, 2)));
    assert!(manager.dispatch(data(1, "x", 1, 2)).is_some());
    assert!(!manager.can_dispatch(&data(1, "x", i64::MAX, 2)));
    assert!(manager.can_dispatch(&data(1, "x", i64::MAX - 1, 2)));
    assert!(manager.can_dispatch(&data(1, "x", i64::MIN, 2)));
    assert!(manager.dispatch(data(1, "x", -2, 2)).is_some());
    assert!(!manager.can_dispatch(&data(1, "x", i64::MIN, 2)));
    assert!(manager.can_dispatch(&data(9, "x", i64::MIN + 1, 2)));
}

#[test]
fn clones_keep_their_fields() {
    let record = data(3, "text", -4, 5);
    let copy = record.clone();
    assert_eq!(copy.worker, 3);
    assert_eq!(copy.message, "text");
    assert_eq!(copy.interval, -4);
    assert_eq!(copy.destination_worker, 5);
}

#[test]
fn delay_in_milliseconds() {
    assert_eq!(delay_millis(0), 0);
    assert_eq!(delay_millis(100), 100);
    assert_eq!(delay_millis(i64::MAX), 9223372036854775807);
    assert_eq!(delay_millis(-1), u64::MAX);
    assert_eq!(delay_millis(-2), u64::MAX - 1);
    assert_eq!(delay_millis(i64::MIN), 9223372036854775808);
}
