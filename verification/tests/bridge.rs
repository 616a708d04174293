use skills_cowork::bridge::{CliService, ProcessHandle, SpawnOutcome, StartAction, StreamOrigin};
use skills_cowork::error::BridgeError;

fn started(pid: u64) -> CliService {
    let mut svc = CliService::new();
    assert!(matches!(svc.start_request(), StartAction::SpawnNeeded));
    svc.start_apply(SpawnOutcome::Spawned(ProcessHandle { pid })).unwrap();
    svc
}

#[test]
fn fresh_bridge_is_not_running() {
    let svc = CliService::new();
    assert!(!svc.is_cli_running());
    assert_eq!(svc.pending_len(), 0);
    assert_eq!(svc.producer_count(), 0);
    assert_eq!(svc.sink_count(), 0);
}

#[test]
fn send_before_any_start_fails_with_not_running() {
    let svc = CliService::new();
    match svc.send_message("hello") {
        Err(BridgeError::NotRunning) => {},
        _ => panic!("send before start must fail with NotRunning"),
    }
}

#[test]
fn start_stores_the_handle_and_raises_the_flag() {
    let svc = started(41);
    assert!(svc.is_cli_running());
    assert_eq!(svc.producer_count(), 2);
    assert!(matches!(svc.start_request(), StartAction::AlreadyRunning));
}

#[test]
fn failed_start_leaves_a_fresh_attempt_possible() {
    let mut svc = CliService::new();
    let r = svc.start_apply(SpawnOutcome::SpawnError("no such executable".to_string()));
    match r {
        Err(BridgeError::SpawnFailure(m)) => assert_eq!(m, "no such executable"),
        _ => panic!("a failed spawn must report SpawnFailure"),
    }
    assert!(!svc.is_cli_running());
    assert!(matches!(svc.start_request(), StartAction::SpawnNeeded));
    svc.start_apply(SpawnOutcome::Spawned(ProcessHandle { pid: 7 })).unwrap();
    assert!(svc.is_cli_running());
}

#[test]
fn stop_without_a_process_is_a_no_op() {
    let mut svc = CliService::new();
    let handle = svc.stop_cli();
    assert!(handle.is_none());
    assert!(!svc.is_cli_running());
}

#[test]
fn stop_surrenders_the_handle_of_the_start() {
    let mut svc = started(99);
    let handle = svc.stop_cli();
    assert_eq!(handle.unwrap().pid, 99);
    assert!(!svc.is_cli_running());
    let again = svc.stop_cli();
    assert!(again.is_none());
}

#[test]
fn restart_cycle_holds_one_handle_at_a_time() {
    let mut svc = started(1);
    let first = svc.stop_cli().unwrap();
    assert_eq!(first.pid, 1);
    assert!(matches!(svc.start_request(), StartAction::SpawnNeeded));
    svc.start_apply(SpawnOutcome::Spawned(ProcessHandle { pid: 2 })).unwrap();
    assert!(svc.is_cli_running());
    let second = svc.stop_cli().unwrap();
    assert_eq!(second.pid, 2);
}

#[test]
fn send_appends_exactly_one_newline() {
    let svc = started(5);
    assert_eq!(svc.send_message("hello").unwrap(), "hello\n");
    assert_eq!(svc.send_message("").unwrap(), "\n");
}

#[test]
fn running_stays_raised_until_stop() {
    let mut svc = started(5);
    svc.push_stdout("one".to_string());
    assert!(svc.is_cli_running());
    svc.listen_to_output("chat-output".to_string());
    assert!(svc.is_cli_running());
    svc.dispatch_next();
    assert!(svc.is_cli_running());
    let _ = svc.poll_output();
    assert!(svc.is_cli_running());
    svc.reader_exited();
    assert!(svc.is_cli_running());
    svc.stop_cli();
    assert!(!svc.is_cli_running());
}

#[test]
fn poll_before_any_start_times_out_on_the_open_channel() {
    let mut svc = CliService::new();
    match svc.poll_output() {
        Err(BridgeError::Timeout) => {},
        _ => panic!("a fresh bridge's channel is open; a poll must time out"),
    }
}

#[test]
fn poll_on_empty_open_channel_times_out() {
    let mut svc = started(5);
    match svc.poll_output() {
        Err(BridgeError::Timeout) => {},
        _ => panic!("an empty open channel must time out"),
    }
}

#[test]
fn poll_on_drained_closed_channel_reports_closed() {
    let mut svc = started(5);
    svc.reader_exited();
    svc.reader_exited();
    assert_eq!(svc.producer_count(), 0);
    match svc.poll_output() {
        Err(BridgeError::ChannelClosed) => {},
        _ => panic!("a drained channel without producers must report ChannelClosed"),
    }
}

#[test]
fn echo_scenario_delivers_the_line_with_its_origin() {
    let mut svc = started(5);
    let payload = svc.send_message("hello").unwrap();
    assert_eq!(payload, "hello\n");
    svc.push_stdout("hello".to_string());
    let line = svc.poll_output().unwrap();
    assert_eq!(line.text, "hello");
    assert_eq!(line.origin, StreamOrigin::Stdout);
    assert_eq!(svc.pending_len(), 0);
}

#[test]
fn stderr_lines_are_distinguishable_from_stdout_lines() {
    let mut svc = started(5);
    svc.push_stderr("warning: low disk".to_string());
    svc.push_stdout("ok".to_string());
    let first = svc.poll_output().unwrap();
    assert_eq!(first.origin, StreamOrigin::Stderr);
    assert_eq!(first.text, "warning: low disk");
    let second = svc.poll_output().unwrap();
    assert_eq!(second.origin, StreamOrigin::Stdout);
    assert_eq!(second.text, "ok");
}

#[test]
fn dispatch_delivers_to_every_sink_in_arrival_order() {
    let mut svc = started(5);
    svc.listen_to_output("chat-output".to_string());
    svc.listen_to_output("chat-stream".to_string());
    svc.push_stdout("a".to_string());
    svc.push_stderr("b".to_string());
    svc.push_stdout("c".to_string());
    assert!(svc.dispatch_next());
    assert!(svc.dispatch_next());
    assert!(svc.dispatch_next());
    assert!(!svc.dispatch_next());
    assert_eq!(svc.sink_count(), 2);
    for i in 0..2 {
        let sink = svc.sink_at(i);
        assert_eq!(sink.delivered.len(), 3);
        assert_eq!(sink.delivered[0].text, "a");
        assert_eq!(sink.delivered[0].origin, StreamOrigin::Stdout);
        assert_eq!(sink.delivered[1].text, "b");
        assert_eq!(sink.delivered[1].origin, StreamOrigin::Stderr);
        assert_eq!(sink.delivered[2].text, "c");
        assert_eq!(sink.delivered[2].origin, StreamOrigin::Stdout);
    }
    assert_eq!(svc.sink_at(0).name, "chat-output");
    assert_eq!(svc.sink_at(1).name, "chat-stream");
    assert_eq!(svc.pending_len(), 0);
}

#[test]
fn lines_are_consumed_exactly_once() {
    let mut svc = started(5);
    svc.listen_to_output("sink".to_string());
    svc.push_stdout("only".to_string());
    assert!(svc.dispatch_next());
    assert_eq!(svc.sink_at(0).delivered.len(), 1);
    match svc.poll_output() {
        Err(BridgeError::Timeout) => {},
        _ => panic!("a dispatched line must not be delivered again"),
    }
}

#[test]
fn bridge_error_messages() {
    assert_eq!(BridgeError::NotRunning.message(), "the subprocess is not running");
    assert_eq!(
        BridgeError::SpawnFailure("bad path".to_string()).message(),
        "failed to start the subprocess: bad path"
    );
    assert_eq!(BridgeError::Timeout.message(), "timed out waiting for output");
    assert_eq!(BridgeError::ChannelClosed.message(), "the output channel is closed");
}
