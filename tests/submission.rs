use traffic_generator::command::{Command, CommandKind, Request};
use traffic_generator::generator::{add_a_random_cluster, Action, Counters, GeneratorError, Submission};
use traffic_generator::messaging::{Error, RunAction, RunEvent, RunLoop};

/// Drives one submission against a stub session that fails the send at
/// position `fail_at`, if any, and records every command it receives.
fn drive(mut s: Submission, fail_at: Option<usize>, log: &mut Vec<Command>) -> Result<Submission, GeneratorError> {
    loop {
        match s.next_action() {
            Action::Finished => return Ok(s),
            Action::Fail(e) => return Err(e),
            Action::Send(i) => {
                let cmd = s.request(i).request_type.clone().unwrap();
                if fail_at == Some(i) {
                    return Err(s.send_failed("connection reset".to_string()));
                }
                log.push(cmd);
                let pause = s.record_sent();
                assert_eq!(pause, 0);
            }
        }
    }
}

#[test]
fn one_batch_end_to_end() {
    let (mut run, first) = RunLoop::new(1);
    assert_eq!(first, RunAction::SubmitBatch(0));
    let mut log = Vec::new();
    let s = drive(add_a_random_cluster(0).unwrap(), None, &mut log).unwrap();
    assert_eq!(log.len(), 5);
    let kinds: Vec<CommandKind> = log.iter().map(|c| c.kind()).collect();
    assert_eq!(
        kinds,
        vec![
            CommandKind::AddCluster,
            CommandKind::AddHttpListener,
            CommandKind::AddHttpFrontend,
            CommandKind::AddBackend,
            CommandKind::AddBackend,
        ]
    );
    assert_eq!(
        s.tally(),
        Counters { add_cluster: 1, add_http_listener: 1, add_http_frontend: 1, add_backend: 2 }
    );
    assert_eq!(run.on_event(RunEvent::BatchSubmitted), RunAction::Halt(Ok(())));
    assert_eq!(run.completed(), 1);
}

#[test]
fn failed_send_stops_the_batch() {
    let mut log = Vec::new();
    let s = add_a_random_cluster(0).unwrap();
    // the third command fails: the two before it were sent and counted
    let mut s2 = s;
    for _ in 0..2 {
        assert!(matches!(s2.next_action(), Action::Send(_)));
        log.push(s2.request(s2.sent()).request_type.clone().unwrap());
        s2.record_sent();
    }
    assert_eq!(s2.next_action(), Action::Send(2));
    assert_eq!(
        s2.tally(),
        Counters { add_cluster: 1, add_http_listener: 1, add_http_frontend: 0, add_backend: 0 }
    );
    let e = s2.send_failed("broken pipe".to_string());
    assert_eq!(e, GeneratorError::Send("broken pipe".to_string()));
    assert_eq!(log.len(), 2);
}

#[test]
fn failure_on_first_command_counts_nothing() {
    let mut log = Vec::new();
    let r = drive(add_a_random_cluster(0).unwrap(), Some(0), &mut log);
    assert_eq!(r.err(), Some(GeneratorError::Send("connection reset".to_string())));
    assert!(log.is_empty());
}

#[test]
fn untyped_request_is_rejected() {
    let reqs = vec![
        Request { request_type: Some(Command::AddCluster { cluster_id: "x".to_string() }) },
        Request { request_type: None },
    ];
    let mut log = Vec::new();
    let r = drive(Submission::new(reqs, 0), None, &mut log);
    assert_eq!(r.err(), Some(GeneratorError::EmptyRequest));
    assert_eq!(log.len(), 1);
}

#[test]
fn pause_is_the_pacing() {
    let mut s = Submission::new(
        vec![Request { request_type: Some(Command::AddCluster { cluster_id: "x".to_string() }) }],
        250,
    );
    assert_eq!(s.next_action(), Action::Send(0));
    assert_eq!(s.record_sent(), 250);
    assert_eq!(s.next_action(), Action::Finished);
    assert_eq!(s.sent(), 1);
}

#[test]
fn counters_increment_one_kind() {
    let mut c = Counters::new();
    c.increment(CommandKind::AddBackend);
    c.increment(CommandKind::AddBackend);
    c.increment(CommandKind::AddCluster);
    assert_eq!(c.get(CommandKind::AddBackend), 2);
    assert_eq!(c.get(CommandKind::AddCluster), 1);
    assert_eq!(c.get(CommandKind::AddHttpListener), 0);
}

#[test]
fn run_submits_planned_batches_in_order() {
    let (mut run, mut action) = RunLoop::new(3);
    let mut indices = Vec::new();
    let mut commands = 0;
    while let RunAction::SubmitBatch(i) = action {
        indices.push(i);
        let mut log = Vec::new();
        drive(add_a_random_cluster(0).unwrap(), None, &mut log).unwrap();
        commands += log.len();
        action = run.on_event(RunEvent::BatchSubmitted);
    }
    assert_eq!(action, RunAction::Halt(Ok(())));
    assert_eq!(indices, vec![0, 1, 2]);
    assert_eq!(commands, 15);
    assert!(run.halted());
}

#[test]
fn run_of_zero_batches_halts_at_once() {
    let (run, action) = RunLoop::new(0);
    assert_eq!(action, RunAction::Halt(Ok(())));
    assert!(run.halted());
}

#[test]
fn cancellation_after_two_of_ten_batches() {
    let (mut run, mut action) = RunLoop::new(10);
    let mut commands = 0;
    let mut batches = 0;
    while let RunAction::SubmitBatch(_) = action {
        if batches == 2 {
            action = run.on_event(RunEvent::Cancelled);
            break;
        }
        let mut log = Vec::new();
        drive(add_a_random_cluster(0).unwrap(), None, &mut log).unwrap();
        commands += log.len();
        batches += 1;
        action = run.on_event(RunEvent::BatchSubmitted);
    }
    assert_eq!(action, RunAction::Halt(Ok(())));
    assert_eq!(commands, 10);
    assert_eq!(run.completed(), 2);
    assert!(run.halted());
}

#[test]
fn failed_batch_fails_the_run() {
    let (mut run, _) = RunLoop::new(5);
    let a = run.on_event(RunEvent::BatchFailed(GeneratorError::Send("down".to_string())));
    assert_eq!(a, RunAction::Halt(Err(Error::Connect(GeneratorError::Send("down".to_string())))));
    assert_eq!(run.completed(), 0);
}
