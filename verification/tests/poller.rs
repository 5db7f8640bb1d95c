use serde_json::Value;
use usage_monitor::codec::decode;
use usage_monitor::error::ScraperError;
use usage_monitor::invoker::RawOutput;
use usage_monitor::poller::{
    emission, poll_cycle, Payload, Poller, TickAction, DEFAULT_INTERVAL_SECS, POLL_TIMEOUT_SECS,
};

#[test]
fn test_start_stop_idempotence() {
    let mut poller = Poller::new_default();
    // not running initially
    assert!(!poller.is_running());
    poller.start(60).expect("start ok");
    assert!(poller.is_running());
    // stop
    poller.stop().expect("stop ok");
    assert!(!poller.is_running());
    // stopping again should error
    assert!(poller.stop().is_err());
    // starting again is fine
    poller.start(60).expect("start ok");
    poller.stop().expect("stop ok");
}

#[test]
fn poller_default_interval() {
    let poller = Poller::new_default();
    assert_eq!(poller.interval_secs(), 300);
    assert_eq!(DEFAULT_INTERVAL_SECS, 300);
    assert_eq!(POLL_TIMEOUT_SECS, 30);
}

#[test]
fn start_twice_is_refused() {
    let mut poller = Poller::new_default();
    assert_eq!(poller.start(10), Ok(()));
    assert_eq!(poller.start(20), Err("poller already running".to_string()));
    assert!(poller.is_running());
    assert_eq!(poller.interval_secs(), 10);
}

#[test]
fn stop_twice_is_refused() {
    let mut poller = Poller::new_default();
    assert_eq!(poller.stop(), Err("poller not running".to_string()));
    assert_eq!(poller.start(7), Ok(()));
    assert_eq!(poller.stop(), Ok(()));
    assert_eq!(poller.stop(), Err("poller not running".to_string()));
    assert!(!poller.is_running());
    assert_eq!(poller.interval_secs(), 7);
}

#[test]
fn restart_takes_the_new_interval() {
    let mut poller = Poller::new_default();
    assert!(poller.start(5).is_ok());
    assert!(poller.stop().is_ok());
    assert!(poller.start(9).is_ok());
    assert!(poller.is_running());
    assert_eq!(poller.interval_secs(), 9);
    let s = poller.schedule();
    assert_eq!(s.first_tick_after_secs, 9);
    assert_eq!(s.period_secs, 9);
}

#[test]
fn tick_polls_only_while_running() {
    let mut poller = Poller::new_default();
    assert!(matches!(poller.on_tick(), TickAction::Stop));
    assert!(!poller.is_polling());
    poller.start(1).unwrap();
    match poller.on_tick() {
        TickAction::Poll { args, timeout_secs } => {
            assert_eq!(args, vec!["--poll_once".to_string()]);
            assert_eq!(timeout_secs, 30);
        }
        other => panic!("unexpected action: {:?}", other),
    }
    poller.stop().unwrap();
    assert!(matches!(poller.on_tick(), TickAction::Stop));
}

#[test]
fn first_tick_after_a_start_polls() {
    let mut poller = Poller::new_default();
    poller.end_poll();
    assert!(!poller.is_polling());
    poller.start(1).unwrap();
    assert!(!poller.is_polling());
    assert!(matches!(poller.on_tick(), TickAction::Poll { .. }));
    poller.stop().unwrap();
    poller.start(1).unwrap();
    assert!(matches!(poller.on_tick(), TickAction::Poll { .. }));
}

#[test]
fn one_poll_at_a_time() {
    let mut poller = Poller::new_default();
    poller.start(1).unwrap();
    assert!(matches!(poller.on_tick(), TickAction::Poll { .. }));
    assert!(poller.is_polling());
    assert!(matches!(poller.on_tick(), TickAction::Skip));
    assert!(matches!(poller.on_tick(), TickAction::Skip));
    poller.end_poll();
    assert!(!poller.is_polling());
    assert!(matches!(poller.on_tick(), TickAction::Poll { .. }));
    poller.end_poll();
    poller.end_poll();
    assert!(matches!(poller.on_tick(), TickAction::Poll { .. }));
}

#[test]
fn stop_gives_up_the_poll_in_flight() {
    let mut poller = Poller::new_default();
    poller.start(1).unwrap();
    assert!(matches!(poller.on_tick(), TickAction::Poll { .. }));
    poller.stop().unwrap();
    assert!(!poller.is_polling());
    assert!(matches!(poller.on_tick(), TickAction::Stop));
    poller.start(2).unwrap();
    assert!(matches!(poller.on_tick(), TickAction::Poll { .. }));
    assert!(poller.is_running());
}

#[test]
fn every_event_sequence_keeps_one_poll_alive_at_most() {
    // all sequences of six events over start, stop, tick and end of poll
    for code in 0..4096u32 {
        let mut poller = Poller::new_default();
        let mut alive = 0;
        let mut rest = code;
        for _ in 0..6 {
            match rest % 4 {
                0 => {
                    let _ = poller.start(1);
                }
                1 => {
                    if poller.stop().is_ok() {
                        alive = 0;
                    }
                }
                2 => {
                    if let TickAction::Poll { .. } = poller.on_tick() {
                        alive += 1;
                    }
                }
                _ => {
                    poller.end_poll();
                    alive = 0;
                }
            }
            rest /= 4;
            assert!(alive <= 1);
            assert_eq!(alive == 1, poller.is_polling());
            assert!(!poller.is_polling() || poller.is_running());
        }
    }
}

#[test]
fn success_becomes_usage_update() {
    let raw = r#"{"status":"ok","components":[]}"#;
    let e = poll_cycle(Ok(RawOutput { stdout: raw.to_string(), stderr: String::new() }));
    assert_eq!(e.event, "usage-update");
    match e.payload {
        Payload::Usage(data) => {
            assert_eq!(data.status, "ok");
            assert_eq!(data.document, serde_json::from_str::<Value>(raw).unwrap());
        }
        other => panic!("unexpected payload: {:?}", other),
    }
}

#[test]
fn failed_run_becomes_usage_error() {
    let e = poll_cycle(Err(ScraperError::Timeout("scraper did not produce output in 30s".to_string())));
    assert_eq!(e.event, "usage-error");
    match e.payload {
        Payload::Error { status, message } => {
            assert_eq!(status, "error");
            assert_eq!(message, "Timeout: scraper did not produce output in 30s");
        }
        other => panic!("unexpected payload: {:?}", other),
    }
}

#[test]
fn undecodable_output_becomes_usage_error() {
    let e = poll_cycle(Ok(RawOutput { stdout: "{\"status\":\"ok\"}".to_string(), stderr: "noise".to_string() }));
    assert_eq!(e.event, "usage-error");
    match e.payload {
        Payload::Error { status, message } => {
            assert_eq!(status, "error");
            assert_eq!(message, "Protocol: missing or invalid 'components' array");
        }
        other => panic!("unexpected payload: {:?}", other),
    }
    let e = poll_cycle(Ok(RawOutput {
        stdout: String::new(),
        stderr: "{\"error_code\":\"session_expired\",\"message\":\"again\"}".to_string(),
    }));
    match e.payload {
        Payload::Error { message, .. } => assert_eq!(message, "Execution: session_expired: again"),
        other => panic!("unexpected payload: {:?}", other),
    }
}

#[test]
fn emission_of_each_failure() {
    for (error, text) in [
        (ScraperError::Io("a".to_string()), "Io: a"),
        (ScraperError::Timeout("b".to_string()), "Timeout: b"),
        (ScraperError::JsonParse("c".to_string()), "JsonParse: c"),
        (ScraperError::Protocol("d".to_string()), "Protocol: d"),
        (ScraperError::Execution("e".to_string()), "Execution: e"),
    ] {
        let e = emission(Err(error));
        assert_eq!(e.event, "usage-error");
        match e.payload {
            Payload::Error { status, message } => {
                assert_eq!(status, "error");
                assert_eq!(message, text);
            }
            other => panic!("unexpected payload: {:?}", other),
        }
    }
    let e = emission(decode(r#"{"status":"ok","components":[]}"#, ""));
    assert_eq!(e.event, "usage-update");
}
