use paw::metrics::ProcessMetrics;
use paw::paw::Paw;
use paw::structs::{CpuPercent, MemoryUsage, PawDone, PawInfo, PawProcess, PawResult};
use paw::watch::{Action, Event, Watch, WatchError};

fn node() -> Paw {
    Paw::new("node", &["tests/test.js"], 500)
}

fn node_process() -> PawProcess {
    PawProcess { cmd: "node".to_string(), args: vec!["tests/test.js".to_string()] }
}

fn some_metrics() -> ProcessMetrics {
    ProcessMetrics {
        memory: Some(MemoryUsage { rss: 4096, vms: 1 << 20 }),
        cpu: Some(CpuPercent { bits: 12.5f32.to_bits() }),
    }
}

fn measured(uptime: u128) -> Event {
    Event::Measured { uptime, metrics: some_metrics() }
}

fn sample(uptime: u128, metrics: ProcessMetrics) -> PawResult {
    PawResult {
        info: PawInfo { uptime, memory_usage: metrics.memory, cpu_usage: metrics.cpu },
        process: node_process(),
    }
}

/// Drives a watch as a driver would: performs nothing, answers each action
/// from the script, and hands every sample to the observer.
fn drive<F: Fn(PawResult)>(
    paw: &Paw,
    script: Vec<Event>,
    callback: F,
) -> Result<PawDone, WatchError> {
    let mut watch = paw.watch();
    let mut script = script.into_iter();
    loop {
        match watch.action() {
            Action::Tick { sample, .. } => {
                callback(sample);
                let event = script.next().expect("the script ended during a tick");
                assert!(watch.handle(event));
            }
            Action::Finish { result } => return result,
            _ => {
                let event = script.next().expect("the script ended early");
                assert!(watch.handle(event));
            }
        }
    }
}

#[test]
fn watch() {
    let paw = Paw::new("node", &["tests/test.js"], 500);
    let callback = move |result: PawResult| {
        println!("{:?}", result);
    };

    let script = vec![
        Event::Spawned { pid: 4242 },
        measured(0),
        Event::Running,
        measured(501),
        Event::Exited { exit_code: Some(0) },
        Event::Captured { stdout: "hello\n".to_string() },
    ];
    match drive(&paw, script, callback) {
        Ok(result) => {
            println!("{:?}", result);
            assert_eq!(result, PawDone { stdout: "hello\n".to_string(), exit_code: Some(0) });
        }
        Err(error) => panic!("{}", error.reason()),
    }
}

#[test]
fn new_keeps_command_arguments_and_interval() {
    let paw = Paw::new("sh", &["-c", "echo hi"], 250);
    assert_eq!(paw.command(), "sh");
    assert_eq!(paw.arguments(), &vec!["-c".to_string(), "echo hi".to_string()]);
    assert_eq!(paw.interval(), 250);

    let bare = Paw::new("true", &[], 0);
    assert_eq!(bare.command(), "true");
    assert!(bare.arguments().is_empty());
    assert_eq!(bare.interval(), 0);
}

#[test]
fn fresh_watch_asks_for_the_spawn() {
    let watch = node().watch();
    assert_eq!(watch.action(), Action::Spawn { process: node_process() });

    let direct = Watch::start(node_process(), 500);
    assert_eq!(direct.action(), Action::Spawn { process: node_process() });
}

#[test]
fn actions_follow_the_loop_in_order() {
    let mut watch = node().watch();
    assert!(watch.handle(Event::Spawned { pid: 7 }));
    assert_eq!(watch.action(), Action::Measure { pid: 7 });

    assert!(watch.handle(measured(3)));
    assert_eq!(watch.action(), Action::Tick { sample: sample(3, some_metrics()), interval: 500 });

    assert!(watch.handle(Event::Running));
    assert_eq!(watch.action(), Action::Measure { pid: 7 });

    assert!(watch.handle(measured(504)));
    assert_eq!(
        watch.action(),
        Action::Tick { sample: sample(504, some_metrics()), interval: 500 }
    );

    assert!(watch.handle(Event::Exited { exit_code: Some(3) }));
    assert_eq!(watch.action(), Action::Join);

    assert!(watch.handle(Event::Captured { stdout: "out".to_string() }));
    assert_eq!(
        watch.action(),
        Action::Finish { result: Ok(PawDone { stdout: "out".to_string(), exit_code: Some(3) }) }
    );
}

#[test]
fn output_and_exit_code_round_trip() {
    let script = vec![
        Event::Spawned { pid: 1 },
        measured(0),
        Event::Exited { exit_code: Some(0) },
        Event::Captured { stdout: "abc\ndef\n".to_string() },
    ];
    let outcome = drive(&node(), script, |_| {});
    assert_eq!(outcome, Ok(PawDone { stdout: "abc\ndef\n".to_string(), exit_code: Some(0) }));
}

#[test]
fn missing_command_is_a_spawn_error_and_nothing_is_observed() {
    let seen = std::cell::Cell::new(0u32);
    let paw = Paw::new("no-such-command", &[], 100);
    let script = vec![Event::SpawnFailed { reason: "No such file or directory".to_string() }];
    let outcome = drive(&paw, script, |_| seen.set(seen.get() + 1));
    assert_eq!(
        outcome,
        Err(WatchError::Spawn { reason: "No such file or directory".to_string() })
    );
    assert_eq!(seen.get(), 0);
}

#[test]
fn spawn_failure_stays_failed_whatever_follows() {
    let mut watch = node().watch();
    let events = vec![
        Event::SpawnFailed { reason: "denied".to_string() },
        Event::Spawned { pid: 9 },
        measured(5),
        Event::Running,
        Event::Exited { exit_code: Some(0) },
        Event::Captured { stdout: "late".to_string() },
    ];
    let samples = watch.replay(&events);
    assert!(samples.is_empty());
    assert_eq!(
        watch.action(),
        Action::Finish { result: Err(WatchError::Spawn { reason: "denied".to_string() }) }
    );
}

#[test]
fn failed_query_still_gives_a_sample_and_the_loop_goes_on() {
    let mut watch = node().watch();
    assert!(watch.handle(Event::Spawned { pid: 11 }));
    assert!(watch.handle(Event::Measured { uptime: 20, metrics: ProcessMetrics::unavailable() }));
    match watch.action() {
        Action::Tick { sample, interval } => {
            assert_eq!(sample.info.uptime, 20);
            assert_eq!(sample.info.memory_usage, None);
            assert_eq!(sample.info.cpu_usage, None);
            assert_eq!(sample.process, node_process());
            assert_eq!(interval, 500);
        }
        other => panic!("{:?}", other),
    }
    assert!(watch.handle(Event::Running));
    assert_eq!(watch.action(), Action::Measure { pid: 11 });
}

#[test]
fn one_metric_may_fail_without_the_other() {
    let only_memory =
        ProcessMetrics { memory: Some(MemoryUsage { rss: 10, vms: 20 }), cpu: None };
    let mut watch = node().watch();
    watch.handle(Event::Spawned { pid: 2 });
    watch.handle(Event::Measured { uptime: 1, metrics: only_memory });
    assert_eq!(watch.action(), Action::Tick { sample: sample(1, only_memory), interval: 500 });
}

#[test]
fn signalled_child_has_no_exit_code_but_keeps_its_output() {
    let script = vec![
        Event::Spawned { pid: 1 },
        measured(0),
        Event::Running,
        measured(500),
        Event::Exited { exit_code: None },
        Event::Captured { stdout: "written before the signal".to_string() },
    ];
    let outcome = drive(&node(), script, |_| {});
    assert_eq!(
        outcome,
        Ok(PawDone { stdout: "written before the signal".to_string(), exit_code: None })
    );
}

#[test]
fn wait_failure_fails_the_watch() {
    let script = vec![
        Event::Spawned { pid: 1 },
        measured(0),
        Event::WaitFailed { reason: "ECHILD".to_string() },
    ];
    let outcome = drive(&node(), script, |_| {});
    assert_eq!(outcome, Err(WatchError::Wait { reason: "ECHILD".to_string() }));
}

#[test]
fn capture_failure_fails_the_watch() {
    let script = vec![
        Event::Spawned { pid: 1 },
        measured(0),
        Event::Exited { exit_code: Some(0) },
        Event::CaptureFailed { reason: "stream did not contain valid UTF-8".to_string() },
    ];
    let outcome = drive(&node(), script, |_| {});
    let error = outcome.unwrap_err();
    assert_eq!(
        error,
        WatchError::Capture { reason: "stream did not contain valid UTF-8".to_string() }
    );
    assert_eq!(error.reason(), "stream did not contain valid UTF-8");
}

#[test]
fn events_that_answer_nothing_are_dropped() {
    let mut watch = node().watch();
    assert!(!watch.handle(Event::Running));
    assert!(!watch.handle(measured(1)));
    assert!(!watch.handle(Event::Captured { stdout: "x".to_string() }));
    assert_eq!(watch.action(), Action::Spawn { process: node_process() });

    assert!(watch.handle(Event::Spawned { pid: 5 }));
    assert!(!watch.handle(Event::Spawned { pid: 6 }));
    assert!(!watch.handle(Event::Exited { exit_code: Some(0) }));
    assert_eq!(watch.action(), Action::Measure { pid: 5 });

    assert!(watch.handle(measured(1)));
    assert!(!watch.handle(measured(2)));
    assert_eq!(watch.action(), Action::Tick { sample: sample(1, some_metrics()), interval: 500 });
}

#[test]
fn finished_watch_is_not_restartable() {
    let mut watch = node().watch();
    watch.replay(&vec![
        Event::Spawned { pid: 1 },
        measured(0),
        Event::Exited { exit_code: Some(1) },
        Event::Captured { stdout: String::new() },
    ]);
    let done = Action::Finish { result: Ok(PawDone { stdout: String::new(), exit_code: Some(1) }) };
    assert_eq!(watch.action(), done);
    assert!(!watch.handle(Event::Spawned { pid: 2 }));
    assert!(!watch.handle(measured(9)));
    assert_eq!(watch.action(), done);
}

#[test]
fn uptime_never_runs_backwards() {
    let mut watch = node().watch();
    let samples = watch.replay(&vec![
        Event::Spawned { pid: 1 },
        measured(100),
        Event::Running,
        measured(40),
        Event::Running,
        measured(100),
        Event::Running,
        measured(650),
    ]);
    let uptimes: Vec<u128> = samples.iter().map(|s| s.info.uptime).collect();
    assert_eq!(uptimes, vec![100, 100, 100, 650]);
}

#[test]
fn replay_returns_one_sample_for_each_tick() {
    let mut watch = node().watch();
    let samples = watch.replay(&vec![
        Event::Spawned { pid: 1 },
        measured(0),
        Event::Running,
        measured(500),
        Event::Running,
        measured(1001),
        Event::Exited { exit_code: Some(0) },
        Event::Captured { stdout: "done".to_string() },
    ]);
    assert_eq!(
        samples,
        vec![
            sample(0, some_metrics()),
            sample(500, some_metrics()),
            sample(1001, some_metrics())
        ]
    );
    assert_eq!(
        watch.action(),
        Action::Finish { result: Ok(PawDone { stdout: "done".to_string(), exit_code: Some(0) }) }
    );
}

#[test]
fn consecutive_watches_share_nothing() {
    let paw = node();
    let mut first = paw.watch();
    let first_samples = first.replay(&vec![
        Event::Spawned { pid: 1 },
        measured(0),
        Event::Running,
        measured(9000),
        Event::Exited { exit_code: Some(0) },
        Event::Captured { stdout: "one".to_string() },
    ]);
    assert_eq!(first_samples.len(), 2);

    let mut second = paw.watch();
    assert_eq!(second.action(), Action::Spawn { process: node_process() });
    let second_samples =
        second.replay(&vec![Event::Spawned { pid: 2 }, measured(3), Event::Running, measured(7)]);
    let uptimes: Vec<u128> = second_samples.iter().map(|s| s.info.uptime).collect();
    assert_eq!(uptimes, vec![3, 7]);
    assert_eq!(
        first.action(),
        Action::Finish { result: Ok(PawDone { stdout: "one".to_string(), exit_code: Some(0) }) }
    );
}

#[test]
fn cpu_reading_passes_through_bit_for_bit() {
    let reading = 37.25f32;
    let metrics = ProcessMetrics { memory: None, cpu: Some(CpuPercent { bits: reading.to_bits() }) };
    let mut watch = node().watch();
    watch.handle(Event::Spawned { pid: 1 });
    watch.handle(Event::Measured { uptime: 0, metrics });
    match watch.action() {
        Action::Tick { sample, .. } => {
            assert_eq!(f32::from_bits(sample.info.cpu_usage.unwrap().bits), 37.25f32);
        }
        other => panic!("{:?}", other),
    }
}

#[test]
fn sample_count_follows_lifetime_over_interval() {
    // A child that lives 1200 ms, sampled every 500 ms by an exact clock:
    // samples at 0, 500 and 1000 ms, and the poll at 1500 ms finds it ended.
    let mut watch = node().watch();
    let samples = watch.replay(&vec![
        Event::Spawned { pid: 1 },
        measured(0),
        Event::Running,
        measured(500),
        Event::Running,
        measured(1000),
        Event::Exited { exit_code: Some(0) },
        Event::Captured { stdout: String::new() },
    ]);
    let lifetime: u128 = 1200;
    let interval: u128 = 500;
    assert_eq!(samples.len() as u128, (lifetime + interval - 1) / interval);
    let uptimes: Vec<u128> = samples.iter().map(|s| s.info.uptime).collect();
    assert_eq!(uptimes, vec![0, 500, 1000]);
}

#[test]
fn child_that_ends_at_once_is_sampled_once() {
    let mut watch = node().watch();
    let samples = watch.replay(&vec![
        Event::Spawned { pid: 1 },
        measured(0),
        Event::Exited { exit_code: Some(0) },
        Event::Captured { stdout: String::new() },
    ]);
    assert_eq!(samples.len(), 1);
}
