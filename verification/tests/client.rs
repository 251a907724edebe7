use omnipaxos_kv::client::choose_is_write;
use omnipaxos_kv::client::decide_is_write;
use omnipaxos_kv::client::Client;
use omnipaxos_kv::client::Phase;
use omnipaxos_kv::client::ProtocolError;
use omnipaxos_kv::data_collection::ClientData;
use omnipaxos_kv::messages::ClientMessage;
use omnipaxos_kv::messages::KVCommand;
use omnipaxos_kv::messages::ServerMessage;
use omnipaxos_kv::operation_history::Input;

fn one_phase() -> Vec<Phase> {
    vec![Phase { duration_ms: 10, read_ratio_ppm: 500_000, request_delay_ms: 1 }]
}

#[test]
fn empty_phase_list_finishes_with_zero_responses() {
    let mut client = Client::new(1, Vec::new(), false);
    let started = client.handle_start_message(&ServerMessage::StartSignal(0));
    assert_eq!(started, Ok(0));
    assert!(client.next_phase().is_none());
    assert!(client.run_finished());
    assert_eq!(client.data().response_count(), 0);
    assert_eq!(client.data().request_count(), 0);
}

#[test]
fn unexpected_message_while_awaiting_start_is_an_error() {
    let mut client = Client::new(1, one_phase(), false);
    let r = client.handle_start_message(&ServerMessage::Write(0));
    assert_eq!(r, Err(ProtocolError::UnexpectedStartMessage));
    // The run is still intact and can start properly afterwards.
    let r = client.handle_start_message(&ServerMessage::StartSignal(7));
    assert_eq!(r, Ok(7));
}

#[test]
fn identifiers_run_densely_from_zero() {
    let mut client = Client::new(1, one_phase(), false);
    client.handle_start_message(&ServerMessage::StartSignal(0)).expect("start");
    client.next_phase().expect("first phase");
    for expected in 0..4usize {
        let ClientMessage::Append(id, _) = client.prepare_request(false);
        assert_eq!(id, expected);
    }
    assert_eq!(client.data().request_count(), 4);
}

#[test]
fn prepared_command_carries_the_decimal_key() {
    let mut client = Client::new(1, one_phase(), false);
    client.handle_start_message(&ServerMessage::StartSignal(0)).expect("start");
    client.next_phase().expect("first phase");
    let ClientMessage::Append(_, cmd) = client.prepare_request(false);
    match cmd {
        KVCommand::Get(key) => assert_eq!(key, "0"),
        _ => panic!("a read prepares a get"),
    }
    let ClientMessage::Append(_, cmd) = client.prepare_request(true);
    match cmd {
        KVCommand::Put(key, value) => {
            assert_eq!(key, "1");
            assert_eq!(value, "1");
        },
        _ => panic!("a write prepares a put"),
    }
}

#[test]
fn run_terminates_after_exactly_all_responses() {
    // One phase, three requests issued, then the phase list is exhausted:
    // the run must finish exactly when the third response arrives.
    let mut client = Client::new(1, one_phase(), true);
    client.handle_start_message(&ServerMessage::StartSignal(0)).expect("start");
    client.next_phase().expect("first phase");
    client.prepare_request(true);
    client.prepare_request(false);
    client.prepare_request(true);
    assert!(client.next_phase().is_none());
    assert!(!client.run_finished());

    client.handle_server_message(ServerMessage::Write(0));
    assert!(!client.run_finished());
    client.handle_server_message(ServerMessage::Read(1, Some("x".to_string())));
    assert!(!client.run_finished());
    client.handle_server_message(ServerMessage::Write(2));
    assert!(client.run_finished());

    assert_eq!(client.data().response_count(), 3);
    assert_eq!(client.data().request_count(), 3);
}

#[test]
fn responses_complete_tracked_operations() {
    let mut client = Client::new(4, one_phase(), true);
    client.handle_start_message(&ServerMessage::StartSignal(0)).expect("start");
    client.next_phase().expect("first phase");
    client.prepare_request(false);
    client.prepare_request(true);

    let history = client.data().history().as_ref().expect("tracking");
    assert_eq!(history.operation_count(), 2);
    assert_eq!(history.completed_count(), 0);

    client.handle_server_message(ServerMessage::Read(0, Some("seen".to_string())));
    let history = client.data().history().as_ref().expect("tracking");
    assert_eq!(history.completed_count(), 1);
    let exported = history.completed_operations();
    assert_eq!(exported.len(), 1);
    assert_eq!(exported[0].client_id, 4);
    assert_eq!(exported[0].output.status, "ok");
    assert_eq!(exported[0].output.value.as_deref(), Some("seen"));
    assert!(exported[0].return_time > 0);
    match &exported[0].input {
        Input::Get { key } => assert_eq!(key, "0"),
        _ => panic!("first request was a read"),
    }
}

#[test]
fn late_start_signal_echo_is_ignored() {
    let mut client = Client::new(1, one_phase(), false);
    client.handle_start_message(&ServerMessage::StartSignal(0)).expect("start");
    client.next_phase().expect("first phase");
    client.prepare_request(false);
    client.handle_server_message(ServerMessage::StartSignal(99));
    assert_eq!(client.data().request_count(), 1);
    assert_eq!(client.data().response_count(), 0);
    assert!(!client.run_finished());
}

#[test]
fn phases_are_consumed_front_to_back_once() {
    let phases = vec![
        Phase { duration_ms: 5, read_ratio_ppm: 0, request_delay_ms: 1 },
        Phase { duration_ms: 7, read_ratio_ppm: 1_000_000, request_delay_ms: 2 },
    ];
    let mut client = Client::new(1, phases.clone(), false);
    client.handle_start_message(&ServerMessage::StartSignal(0)).expect("start");
    assert_eq!(client.next_phase(), Some(phases[0]));
    assert_eq!(client.next_phase(), Some(phases[1]));
    assert_eq!(client.next_phase(), None);
    assert!(client.is_draining());
    assert!(client.run_finished());
}

#[test]
fn read_write_decision_compares_sample_to_ratio() {
    assert!(decide_is_write(500_001, 500_000));
    assert!(!decide_is_write(500_000, 500_000));
    assert!(!decide_is_write(0, 500_000));
    assert!(decide_is_write(1, 0));
}

#[test]
fn full_read_ratio_never_writes() {
    for _ in 0..32 {
        assert!(!choose_is_write(1_000_000));
    }
}

#[test]
fn zero_read_ratio_writes_unless_sample_is_zero() {
    // With ratio 0 a write needs only a positive sample; over many draws at
    // least one must be positive.
    let mut wrote = false;
    for _ in 0..64 {
        wrote = wrote || choose_is_write(0);
    }
    assert!(wrote);
}

#[test]
fn receive_stamp_never_precedes_send() {
    let mut data = ClientData::new();
    data.new_request_at(false, 100);
    data.new_response_at(0, 50);
    let records = data.request_records();
    assert_eq!(records.len(), 1);
    assert_eq!(records[0].request_time, 100);
    assert_eq!(records[0].response_time, Some(100));
    assert_eq!(data.response_count(), 1);
}

#[test]
fn ledger_counts_requests_and_responses() {
    let mut data = ClientData::new();
    data.new_request_at(true, 10);
    data.new_request_at(false, 20);
    assert_eq!(data.request_count(), 2);
    assert_eq!(data.response_count(), 0);
    data.new_response_at(1, 25);
    assert_eq!(data.response_count(), 1);
    let records = data.request_records();
    assert_eq!(records[0].response_time, None);
    assert_eq!(records[1].response_time, Some(25));
    assert!(records[1].write == false);
    assert!(records[0].write == true);
}

#[test]
fn untracked_ledger_records_no_operations() {
    let mut data = ClientData::new();
    let r = data.record_operation(Input::Get { key: "0".to_string() });
    assert_eq!(r, None);
    assert!(data.history().is_none());
}
