use omnipaxos_kv::operation_history::Input;
use omnipaxos_kv::operation_history::OperationHistory;
use omnipaxos_kv::operation_history::Output;

fn ok_output(value: Option<&str>) -> Output {
    Output { status: "ok".to_string(), value: value.map(|v| v.to_string()) }
}

#[test]
fn recording_assigns_dense_indices() {
    let mut history = OperationHistory::new(3);
    history.set_sync_time(0);
    let first = history.record_operation_at(Input::Get { key: "0".to_string() }, 5);
    let second = history.record_operation_at(
        Input::Put { key: "1".to_string(), value: "1".to_string() },
        8,
    );
    let third = history.record_operation_at(Input::Delete { key: "0".to_string() }, 11);
    assert_eq!(first, 0);
    assert_eq!(second, 1);
    assert_eq!(third, 2);
    assert_eq!(history.operation_count(), 3);
    assert_eq!(history.completed_count(), 0);
}

#[test]
fn recorded_operation_is_pending_with_call_time() {
    let mut history = OperationHistory::new(9);
    history.set_sync_time(2);
    let idx = history.record_operation_at(Input::Get { key: "7".to_string() }, 41);
    let op = history.get_operation(idx).expect("recorded");
    assert_eq!(op.client_id, 9);
    // call time = sync origin (2 ms = 2_000_000 ns) + elapsed 41 ns
    assert_eq!(op.call, 2_000_041);
    assert_eq!(op.return_time, 0);
    assert_eq!(op.output.status, "pending");
    assert!(op.output.value.is_none());
}

#[test]
fn completion_sets_output_and_return_time() {
    let mut history = OperationHistory::new(1);
    history.set_sync_time(0);
    let idx = history.record_operation_at(Input::Get { key: "4".to_string() }, 10);
    history.complete_operation_at(idx, ok_output(Some("v")), 25);
    let op = history.get_operation(idx).expect("recorded");
    assert_eq!(op.return_time, 25);
    assert_eq!(op.output.status, "ok");
    assert_eq!(op.output.value.as_deref(), Some("v"));
    assert_eq!(op.call, 10);
    assert_eq!(history.completed_count(), 1);
}

#[test]
fn second_completion_overwrites_first() {
    // Completing twice is defined behaviour: the last write wins.
    let mut history = OperationHistory::new(1);
    history.set_sync_time(0);
    let idx = history.record_operation_at(Input::Get { key: "0".to_string() }, 1);
    history.complete_operation_at(idx, ok_output(Some("first")), 7);
    history.complete_operation_at(idx, ok_output(Some("second")), 13);
    let op = history.get_operation(idx).expect("recorded");
    assert_eq!(op.return_time, 13);
    assert_eq!(op.output.value.as_deref(), Some("second"));
    assert_eq!(history.completed_count(), 1);
}

#[test]
fn stale_index_completion_is_a_no_op() {
    let mut history = OperationHistory::new(1);
    history.set_sync_time(0);
    history.record_operation_at(Input::Get { key: "0".to_string() }, 1);
    history.complete_operation_at(42, ok_output(None), 9);
    assert_eq!(history.operation_count(), 1);
    assert_eq!(history.completed_count(), 0);
}

#[test]
fn export_holds_exactly_the_completed_operations() {
    // Three recorded, two completed: the export holds exactly those two, in
    // recorded order, each with a positive return time.
    let mut history = OperationHistory::new(5);
    history.set_sync_time(0);
    let a = history.record_operation_at(Input::Get { key: "0".to_string() }, 1);
    let _b = history.record_operation_at(Input::Get { key: "1".to_string() }, 2);
    let c = history.record_operation_at(
        Input::Put { key: "2".to_string(), value: "2".to_string() },
        3,
    );
    history.complete_operation_at(a, ok_output(None), 10);
    history.complete_operation_at(c, ok_output(None), 20);

    let exported = history.completed_operations();
    assert_eq!(exported.len(), 2);
    for op in &exported {
        assert!(op.return_time > 0);
    }
    assert_eq!(exported[0].call, 1);
    assert_eq!(exported[0].return_time, 10);
    assert_eq!(exported[1].call, 3);
    assert_eq!(exported[1].return_time, 20);
    match &exported[1].input {
        Input::Put { key, value } => {
            assert_eq!(key, "2");
            assert_eq!(value, "2");
        },
        _ => panic!("third operation was a put"),
    }
    assert_eq!(history.operation_count(), 3);
    assert_eq!(history.completed_count(), 2);
}

#[test]
fn wall_clock_recording_still_assigns_dense_indices() {
    let mut history = OperationHistory::new(2);
    let first = history.record_operation(Input::Get { key: "0".to_string() });
    let second = history.record_operation(Input::Get { key: "1".to_string() });
    assert_eq!(first, 0);
    assert_eq!(second, 1);
    history.complete_operation(first, ok_output(None));
    assert_eq!(history.completed_count(), 1);
    let op = history.get_operation(first).expect("recorded");
    assert!(op.return_time > 0);
}

#[test]
fn negative_sync_origin_is_carried_through() {
    let mut history = OperationHistory::new(1);
    history.set_sync_time(-3);
    let idx = history.record_operation_at(Input::Get { key: "0".to_string() }, 1_000_000);
    let op = history.get_operation(idx).expect("recorded");
    // -3 ms origin plus 1 ms elapsed
    assert_eq!(op.call, -2_000_000);
}
