use rust_miner::config::{Config, PoolInfo};
use rust_miner::error::{BackoffPolicy, ErrorKind};
use rust_miner::job::Job;
use rust_miner::solver::{solve, Solution};
use rust_miner::worker::{Command, Event, Notice, Phase, Reaction, ShareCounters, Worker};
use sha1::{Digest, Sha1};

const REQUEST: &str = "JOB,bob,MEDIUM,key\n";

fn worker_config() -> Config {
    Config {
        username: "bob".to_string(),
        mining_key: "key".to_string(),
        difficulty: "MEDIUM".to_string(),
        rig_identifier: "desk".to_string(),
        thread_count: 1,
    }
}

fn fresh() -> Worker {
    Worker::new(worker_config(), 0, 31415, 1_000)
}

fn in_phase(phase: Phase) -> Worker {
    let mut worker = fresh();
    worker.phase = phase;
    worker
}

fn quiet(command: Command) -> Option<Reaction> {
    Some(Reaction { notices: Vec::new(), command })
}

fn line(text: &str) -> Event {
    Event::Line(text.to_string())
}

fn failed(text: &str) -> Event {
    Event::Failed(text.to_string())
}

fn hex_sha1(text: &str) -> String {
    hex::encode(Sha1::digest(text.as_bytes()))
}

const SOLUTION: Solution = Solution { nonce: 42, elapsed_us: 2000 };

#[test]
fn new_worker_begins_by_locating_the_pool() {
    let worker = fresh();
    assert_eq!(worker.phase, Phase::Disconnected);
    assert_eq!(worker.index, 0);
    assert_eq!(worker.run_id, 31415);
    assert_eq!(worker.policy, BackoffPolicy::fixed());
    assert_eq!(worker.shares, ShareCounters { accepted: 0, rejected: 0 });
    assert_eq!(worker.epoch_start_us, 1_000);
    assert_eq!(Worker::first_command(), Command::Locate);
}

#[test]
fn session_runs_from_discovery_to_an_accepted_share() {
    let mut worker = fresh();

    let pool = PoolInfo { ip: "198.51.100.4".to_string(), port: 6000 };
    assert_eq!(
        worker.step(Event::Located(pool), 1_001),
        Some(Reaction {
            notices: vec![Notice::Connecting("198.51.100.4:6000".to_string())],
            command: Command::Connect("198.51.100.4:6000".to_string()),
        })
    );
    assert_eq!(worker.phase, Phase::Connecting);

    assert_eq!(worker.step(Event::Connected, 1_002), quiet(Command::ReadLine));
    assert_eq!(worker.phase, Phase::Handshaking);

    assert_eq!(
        worker.step(line("3.0\n"), 1_003),
        Some(Reaction {
            notices: vec![Notice::Banner("3.0".to_string())],
            command: Command::WriteLine(REQUEST.to_string()),
        })
    );
    assert_eq!(worker.phase, Phase::RequestingJob);

    assert_eq!(worker.step(Event::Written, 1_004), quiet(Command::ReadLine));
    assert_eq!(worker.phase, Phase::AwaitingJob);

    let job_line = format!("seed1,{},100\n", hex_sha1("seed142"));
    let answer = worker.step(line(&job_line), 1_005).unwrap();
    assert!(answer.notices.is_empty());
    let job = match answer.command {
        Command::Solve(job) => job,
        other => panic!("not a job to solve: {:?}", other),
    };
    assert_eq!(
        job,
        Job {
            base: "seed1".to_string(),
            target: Sha1::digest(b"seed142").to_vec(),
            difficulty: 100,
        }
    );
    assert_eq!(worker.phase, Phase::Solving);

    let solution = solve(&job).expect("the job has a solution");
    assert_eq!(solution.nonce, 42);

    let answer = worker.step(Event::Solved(Some(solution)), 1_006).unwrap();
    assert!(answer.notices.is_empty());
    let sent = match answer.command {
        Command::WriteLine(sent) => sent,
        other => panic!("not a line to write: {:?}", other),
    };
    let parts: Vec<&str> = sent.split(',').collect();
    assert_eq!(parts.len(), 5);
    assert_eq!(parts[0], "42");
    assert_eq!(parts[2], "RustMiner");
    assert_eq!(parts[3], "desk");
    assert_eq!(parts[4], "31415\n");
    assert_eq!(worker.phase, Phase::Submitting(solution));

    assert_eq!(worker.step(Event::Written, 1_007), quiet(Command::ReadLine));
    assert_eq!(worker.phase, Phase::AwaitingFeedback(solution));

    let answer = worker.step(line("GOOD\n"), 1_008).unwrap();
    assert_eq!(answer.command, Command::WriteLine(REQUEST.to_string()));
    assert_eq!(answer.notices.len(), 1);
    assert!(matches!(&answer.notices[0], Notice::ShareAccepted { accepted: 1, .. }));
    assert_eq!(worker.shares, ShareCounters { accepted: 1, rejected: 0 });
    assert_eq!(worker.phase, Phase::RequestingJob);
    assert_eq!(worker.epoch_start_us, 1_000);
}

#[test]
fn summary_comes_once_with_the_tenth_share() {
    let mut worker = in_phase(Phase::AwaitingFeedback(SOLUTION));
    let mut summaries = 0;
    for round in 1..=10u64 {
        let text = if round % 3 == 0 { "BAD,too late\n" } else { "GOOD\n" };
        let answer = worker.step(line(text), 1_000 + 500 * round).unwrap();
        assert_eq!(answer.command, Command::WriteLine(REQUEST.to_string()));
        for notice in &answer.notices {
            if matches!(notice, Notice::Summary { .. }) {
                summaries += 1;
            }
        }
        if round < 10 {
            assert_eq!(answer.notices.len(), 1);
            assert_eq!(worker.epoch_start_us, 1_000);
            worker.phase = Phase::AwaitingFeedback(SOLUTION);
        } else {
            assert_eq!(
                answer.notices,
                vec![
                    Notice::ShareAccepted { rate: "21.00 kH/s".to_string(), accepted: 7 },
                    Notice::Summary { accepted: 7, rejected: 3, uptime_us: 5_000 },
                ]
            );
        }
    }
    assert_eq!(summaries, 1);
    assert_eq!(worker.shares, ShareCounters { accepted: 7, rejected: 3 });
    assert_eq!(worker.epoch_start_us, 6_000);

    worker.phase = Phase::AwaitingFeedback(SOLUTION);
    let answer = worker.step(line("GOOD"), 7_000).unwrap();
    assert_eq!(
        answer.notices,
        vec![Notice::ShareAccepted { rate: "21.00 kH/s".to_string(), accepted: 8 }]
    );
    assert_eq!(worker.epoch_start_us, 6_000);
}

#[test]
fn summary_counts_time_from_the_summary_before() {
    let mut worker = in_phase(Phase::AwaitingFeedback(SOLUTION));
    worker.shares = ShareCounters { accepted: 12, rejected: 7 };
    worker.epoch_start_us = 40_000;
    let answer = worker.step(line("BAD,dup"), 100_000).unwrap();
    assert_eq!(
        answer.notices,
        vec![
            Notice::ShareRejected { reason: "dup".to_string(), rejected: 8 },
            Notice::Summary { accepted: 12, rejected: 8, uptime_us: 60_000 },
        ]
    );
    assert_eq!(worker.epoch_start_us, 100_000);
    assert_eq!(worker.shares, ShareCounters { accepted: 12, rejected: 8 });
}

#[test]
fn summary_with_a_clock_that_went_back_counts_no_time() {
    let mut worker = in_phase(Phase::AwaitingFeedback(SOLUTION));
    worker.shares = ShareCounters { accepted: 9, rejected: 0 };
    worker.epoch_start_us = 40_000;
    let answer = worker.step(line("GOOD"), 30_000).unwrap();
    assert_eq!(
        answer.notices[1],
        Notice::Summary { accepted: 10, rejected: 0, uptime_us: 0 }
    );
    assert_eq!(worker.epoch_start_us, 30_000);
}

#[test]
fn no_summary_without_a_share() {
    let mut worker = in_phase(Phase::AwaitingFeedback(SOLUTION));
    let answer = worker.step(line("BLOCK\n"), 2_000).unwrap();
    assert_eq!(answer.notices, vec![Notice::NewBlock]);
    assert_eq!(worker.shares, ShareCounters { accepted: 0, rejected: 0 });
    assert_eq!(worker.epoch_start_us, 1_000);
    assert_eq!(worker.phase, Phase::RequestingJob);
}

#[test]
fn feedback_of_no_known_kind_is_told_as_it_came() {
    let mut worker = in_phase(Phase::AwaitingFeedback(SOLUTION));
    worker.shares = ShareCounters { accepted: 2, rejected: 1 };
    let answer = worker.step(line("  WEIRD123 \n"), 2_000).unwrap();
    assert_eq!(answer.notices, vec![Notice::Other("WEIRD123".to_string())]);
    assert_eq!(answer.command, Command::WriteLine(REQUEST.to_string()));
    assert_eq!(worker.shares, ShareCounters { accepted: 2, rejected: 1 });
}

#[test]
fn summary_is_due_whenever_the_total_is_a_multiple_of_ten() {
    let mut worker = in_phase(Phase::AwaitingFeedback(SOLUTION));
    worker.shares = ShareCounters { accepted: 6, rejected: 4 };
    worker.epoch_start_us = 5_000;
    let answer = worker.step(line("BLOCK"), 9_000).unwrap();
    assert_eq!(
        answer.notices,
        vec![Notice::NewBlock, Notice::Summary { accepted: 6, rejected: 4, uptime_us: 4_000 }]
    );
    assert_eq!(worker.epoch_start_us, 9_000);
}

#[test]
fn failed_discovery_waits_five_seconds() {
    let mut worker = fresh();
    assert_eq!(
        worker.step(failed("no route"), 0),
        Some(Reaction {
            notices: vec![Notice::Failure {
                kind: ErrorKind::Discovery,
                detail: "no route".to_string()
            }],
            command: Command::Sleep(5),
        })
    );
    assert_eq!(worker.phase, Phase::Backoff);
    assert_eq!(worker.step(Event::Woke, 0), quiet(Command::Locate));
    assert_eq!(worker.phase, Phase::Disconnected);
}

#[test]
fn failed_connect_waits_three_seconds_and_locates_again() {
    let mut worker = in_phase(Phase::Connecting);
    assert_eq!(
        worker.step(failed("refused"), 0),
        Some(Reaction {
            notices: vec![Notice::Failure {
                kind: ErrorKind::Connect,
                detail: "refused".to_string()
            }],
            command: Command::Sleep(3),
        })
    );
    assert_eq!(worker.phase, Phase::Backoff);
    assert_eq!(worker.step(Event::Woke, 0), quiet(Command::Locate));
}

#[test]
fn lost_session_waits_two_seconds_and_keeps_the_counters() {
    for phase in [
        Phase::RequestingJob,
        Phase::AwaitingJob,
        Phase::Submitting(SOLUTION),
        Phase::AwaitingFeedback(SOLUTION),
    ] {
        let mut worker = in_phase(phase);
        worker.shares = ShareCounters { accepted: 4, rejected: 2 };
        assert_eq!(
            worker.step(failed("reset"), 9_999),
            Some(Reaction {
                notices: vec![Notice::Failure {
                    kind: ErrorKind::SessionIo,
                    detail: "reset".to_string()
                }],
                command: Command::Sleep(2),
            })
        );
        assert_eq!(worker.phase, Phase::Backoff);
        assert_eq!(worker.shares, ShareCounters { accepted: 4, rejected: 2 });
        assert_eq!(worker.epoch_start_us, 1_000);
    }
}

#[test]
fn delays_follow_the_policy() {
    let mut worker = in_phase(Phase::AwaitingJob);
    worker.policy = BackoffPolicy { discovery_secs: 50, connect_secs: 30, session_secs: 20 };
    assert_eq!(worker.step(failed(""), 0).unwrap().command, Command::Sleep(20));
    worker.phase = Phase::Disconnected;
    assert_eq!(worker.step(failed(""), 0).unwrap().command, Command::Sleep(50));
    worker.phase = Phase::Connecting;
    assert_eq!(worker.step(failed(""), 0).unwrap().command, Command::Sleep(30));
}

#[test]
fn missing_banner_does_not_end_the_session() {
    let mut worker = in_phase(Phase::Handshaking);
    assert_eq!(worker.step(failed("eof"), 0), quiet(Command::WriteLine(REQUEST.to_string())));
    assert_eq!(worker.phase, Phase::RequestingJob);
}

#[test]
fn malformed_job_line_asks_again_at_once() {
    for text in ["abc,def\n", "a,b,c,d\n", "\n", ""] {
        let mut worker = in_phase(Phase::AwaitingJob);
        assert_eq!(worker.step(line(text), 0), quiet(Command::WriteLine(REQUEST.to_string())));
        assert_eq!(worker.phase, Phase::RequestingJob);
    }
}

#[test]
fn job_line_is_trimmed_before_it_is_split() {
    let mut worker = in_phase(Phase::AwaitingJob);
    let answer = worker.step(line("  base,0aff,7 \r\n"), 0);
    assert_eq!(
        answer,
        quiet(Command::Solve(Job {
            base: "base".to_string(),
            target: vec![0x0a, 0xff],
            difficulty: 7
        }))
    );
}

#[test]
fn job_with_fields_that_do_not_decode_is_still_solved() {
    let mut worker = in_phase(Phase::AwaitingJob);
    let answer = worker.step(line("base,xyz,lots\n"), 0);
    assert_eq!(
        answer,
        quiet(Command::Solve(Job { base: "base".to_string(), target: Vec::new(), difficulty: 0 }))
    );
    assert_eq!(worker.phase, Phase::Solving);
}

#[test]
fn job_without_a_solution_is_given_up() {
    let mut worker = in_phase(Phase::Solving);
    assert_eq!(
        worker.step(Event::Solved(None), 0),
        quiet(Command::WriteLine(REQUEST.to_string()))
    );
    assert_eq!(worker.phase, Phase::RequestingJob);
}

#[test]
fn solution_is_submitted_with_its_rate() {
    let mut worker = in_phase(Phase::Solving);
    assert_eq!(
        worker.step(Event::Solved(Some(SOLUTION)), 0),
        quiet(Command::WriteLine("42,21000.00,RustMiner,desk,31415\n".to_string()))
    );
    assert_eq!(worker.phase, Phase::Submitting(SOLUTION));
}

#[test]
fn event_that_is_not_waited_for_is_refused() {
    let phases = [
        Phase::Disconnected,
        Phase::Backoff,
        Phase::Connecting,
        Phase::Handshaking,
        Phase::RequestingJob,
        Phase::AwaitingJob,
        Phase::Solving,
        Phase::Submitting(SOLUTION),
        Phase::AwaitingFeedback(SOLUTION),
    ];
    let awaited = [
        ["located", "failed"].as_slice(),
        ["woke"].as_slice(),
        ["connected", "failed"].as_slice(),
        ["line", "failed"].as_slice(),
        ["written", "failed"].as_slice(),
        ["line", "failed"].as_slice(),
        ["solved"].as_slice(),
        ["written", "failed"].as_slice(),
        ["line", "failed"].as_slice(),
    ];
    for (phase, names) in phases.iter().zip(awaited.iter()) {
        let events = [
            ("located", Event::Located(PoolInfo { ip: "h".to_string(), port: 1 })),
            ("connected", Event::Connected),
            ("line", line("GOOD")),
            ("written", Event::Written),
            ("solved", Event::Solved(None)),
            ("woke", Event::Woke),
            ("failed", failed("x")),
        ];
        for (name, event) in events {
            let mut worker = in_phase(*phase);
            let before = worker.clone();
            let answer = worker.step(event, 5);
            assert_eq!(answer.is_some(), names.contains(&name), "{:?} on {}", phase, name);
            if answer.is_none() {
                assert_eq!(worker, before);
            }
        }
    }
}
