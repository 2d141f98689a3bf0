use image_trainer::daemon::LlmDaemon;
use image_trainer::launch::Program;
use image_trainer::metrics::TrainingMetrics;
use image_trainer::updates::{Action, Outcome, Updates};
use serde_json::Value;

const REPORT: &[u8] = b"{\"hardware\": {\"ram_used_gb\": 2.0}}";

fn running(pid: u32) -> LlmDaemon {
    let mut daemon = LlmDaemon::new();
    daemon.load_started();
    daemon.spawned(Program::SystemPython, Ok(Some(pid)));
    daemon
}

fn ready(pid: u32) -> LlmDaemon {
    let mut daemon = running(pid);
    daemon.stdout_line("{\"title\":\"LLM Ready\"}", "m");
    daemon
}

fn metrics() -> TrainingMetrics<Value> {
    let mut metrics =
        TrainingMetrics { epoch: 0, loss: Value::from(0.0), accuracy: Value::from(0.0) };
    metrics.update_training_metrics(1, Value::from(0.9), Value::from(0.1));
    metrics.update_training_metrics(2, Value::from(0.5), Value::from(0.25));
    metrics
}

fn measured(ram_mb: Option<u64>) -> Outcome {
    Outcome::Measured { ram_mb, metrics: metrics() }
}

fn line(ram_mb: u64) -> String {
    format!(
        "{{\"accuracy\":0.25,\"epoch\":2,\"loss\":0.5,\"ram_mb\":{},\
         \"type\":\"system_update\",\"vram_mb\":0,\"vram_total_mb\":0}}\n",
        ram_mb
    )
}

/// A round up to the report of its script.
fn begun(daemon: &mut LlmDaemon) -> Updates {
    let mut updates = Updates::new(Some(7));
    assert!(matches!(updates.step(daemon, Outcome::Tick), Action::Sleep));
    assert!(matches!(updates.step(daemon, Outcome::Tick), Action::Locate));
    let located = Outcome::Located(Ok("\\\\?\\C:\\system_info.py".to_string()));
    assert!(matches!(updates.step(daemon, located), Action::Search));
    match updates.step(daemon, Outcome::Found(Some("python3"))) {
        Action::Run { python, script } => {
            assert_eq!((python, script.as_str()), ("python3", "C:\\system_info.py"));
        }
        _ => panic!("the script is not run"),
    }
    updates
}

#[test]
fn round_writes_the_latest_metrics() {
    let mut daemon = ready(7);
    let mut updates = begun(&mut daemon);
    match updates.step(&mut daemon, Outcome::Ran(Some((true, REPORT.to_vec())))) {
        Action::Measure(Some(report)) => assert_eq!(report["hardware"]["ram_used_gb"], 2.0),
        _ => panic!("no report"),
    }
    match updates.step(&mut daemon, measured(Some(2048))) {
        Action::Write(text) => assert_eq!(text, line(2048)),
        _ => panic!("nothing is written"),
    }
    assert!(matches!(updates.step(&mut daemon, Outcome::Written(true)), Action::Sleep));
    assert!(daemon.is_input_open());
    assert!(matches!(updates.step(&mut daemon, Outcome::Tick), Action::Locate));
}

#[test]
fn update_is_written_without_a_report() {
    for ran in [None, Some((false, REPORT.to_vec())), Some((true, b"Traceback".to_vec()))] {
        let mut daemon = ready(7);
        let mut updates = begun(&mut daemon);
        assert!(matches!(updates.step(&mut daemon, Outcome::Ran(ran)), Action::Measure(None)));
        match updates.step(&mut daemon, measured(Some(5))) {
            Action::Write(text) => assert_eq!(text, line(0)),
            _ => panic!("nothing is written"),
        }
    }
}

#[test]
fn report_without_memory_tells_none() {
    let mut daemon = ready(7);
    let mut updates = begun(&mut daemon);
    updates.step(&mut daemon, Outcome::Ran(Some((true, b"{}".to_vec()))));
    match updates.step(&mut daemon, measured(None)) {
        Action::Write(text) => assert_eq!(text, line(0)),
        _ => panic!("nothing is written"),
    }
}

#[test]
fn nothing_is_done_unless_ready() {
    let mut daemon = running(7);
    let mut updates = Updates::new(Some(7));
    for _ in 0..5 {
        assert!(matches!(updates.step(&mut daemon, Outcome::Tick), Action::Sleep));
    }
    daemon.stdout_line("{\"title\":\"LLM Ready\"}", "m");
    assert!(matches!(updates.step(&mut daemon, Outcome::Tick), Action::Locate));
}

#[test]
fn first_tick_begins_no_round() {
    let mut daemon = ready(7);
    let mut updates = Updates::new(Some(7));
    assert!(matches!(updates.step(&mut daemon, Outcome::Tick), Action::Sleep));
    assert!(matches!(updates.step(&mut daemon, Outcome::Tick), Action::Locate));
}

#[test]
fn round_ends_where_something_is_missing() {
    let mut daemon = ready(7);
    let mut updates = Updates::new(Some(7));
    updates.step(&mut daemon, Outcome::Tick);
    updates.step(&mut daemon, Outcome::Tick);
    let missing = Outcome::Located(Err("no dir".to_string()));
    assert!(matches!(updates.step(&mut daemon, missing), Action::Sleep));
    assert!(matches!(updates.step(&mut daemon, Outcome::Tick), Action::Locate));
    updates.step(&mut daemon, Outcome::Located(Ok("s.py".to_string())));
    assert!(matches!(updates.step(&mut daemon, Outcome::Found(None)), Action::Sleep));
    assert!(matches!(updates.step(&mut daemon, Outcome::Tick), Action::Locate));
}

#[test]
fn failed_write_closes_the_input() {
    let mut daemon = ready(7);
    let mut updates = begun(&mut daemon);
    updates.step(&mut daemon, Outcome::Ran(None));
    assert!(matches!(updates.step(&mut daemon, measured(None)), Action::Write(_)));
    assert!(daemon.send_chat_message("hi").is_ok());
    assert!(matches!(updates.step(&mut daemon, Outcome::Written(false)), Action::Sleep));
    assert!(!daemon.is_input_open());
    assert!(daemon.send_chat_message("hi").is_err());
}

#[test]
fn nothing_is_written_to_a_closed_input() {
    let mut daemon = ready(7);
    let mut updates = begun(&mut daemon);
    updates.step(&mut daemon, Outcome::Ran(None));
    daemon.write_failed();
    assert!(matches!(updates.step(&mut daemon, measured(None)), Action::Sleep));
}

#[test]
fn values_that_are_no_measurements_are_not_written() {
    let mut daemon = ready(7);
    let mut updates = begun(&mut daemon);
    updates.step(&mut daemon, Outcome::Ran(None));
    let metrics = TrainingMetrics { epoch: 1, loss: Value::from("x"), accuracy: Value::Null };
    let outcome = Outcome::Measured { ram_mb: None, metrics };
    assert!(matches!(updates.step(&mut daemon, outcome), Action::Sleep));
}

#[test]
fn rounds_of_a_replaced_process_stop() {
    let mut daemon = ready(7);
    let mut updates = Updates::new(Some(7));
    updates.step(&mut daemon, Outcome::Tick);
    daemon.spawned(Program::SystemPython, Ok(Some(8)));
    assert!(matches!(updates.step(&mut daemon, Outcome::Tick), Action::Stop));
    assert!(matches!(updates.step(&mut daemon, Outcome::Tick), Action::Stop));
}

#[test]
fn round_of_a_replaced_process_writes_nothing() {
    let mut daemon = ready(7);
    let mut updates = begun(&mut daemon);
    updates.step(&mut daemon, Outcome::Ran(Some((true, REPORT.to_vec()))));
    daemon.spawned(Program::SystemPython, Ok(Some(8)));
    assert!(daemon.is_ready() && daemon.is_input_open());
    assert!(matches!(updates.step(&mut daemon, measured(Some(2048))), Action::Stop));
    assert!(matches!(updates.step(&mut daemon, Outcome::Tick), Action::Stop));
}

#[test]
fn process_that_runs_gets_one_update_for_each_tick() {
    let mut daemon = ready(7);
    let mut old = begun(&mut daemon);
    daemon.spawned(Program::SystemPython, Ok(Some(8)));
    let mut new = Updates::new(Some(8));
    let mut written = 0;
    new.step(&mut daemon, Outcome::Tick);
    for _ in 0..3 {
        old.step(&mut daemon, Outcome::Ran(None));
        new.step(&mut daemon, Outcome::Tick);
        new.step(&mut daemon, Outcome::Located(Ok("s.py".to_string())));
        new.step(&mut daemon, Outcome::Found(Some("python")));
        new.step(&mut daemon, Outcome::Ran(None));
        for rounds in [&mut old, &mut new] {
            if let Action::Write(_) = rounds.step(&mut daemon, measured(None)) {
                written += 1;
            }
        }
        new.step(&mut daemon, Outcome::Written(true));
    }
    assert_eq!(written, 3);
}

#[test]
fn written_update_is_one_line_that_reads_back() {
    let mut daemon = ready(7);
    let mut updates = begun(&mut daemon);
    updates.step(&mut daemon, Outcome::Ran(Some((true, REPORT.to_vec()))));
    let metrics =
        TrainingMetrics { epoch: 3, loss: Value::from(f64::NAN), accuracy: Value::from(0.1) };
    let outcome = Outcome::Measured { ram_mb: Some(5), metrics };
    let line = match updates.step(&mut daemon, outcome) {
        Action::Write(line) => line,
        _ => panic!("nothing is written"),
    };
    assert_eq!(line.find('\n'), Some(line.len() - 1));
    let value: Value = serde_json::from_str(line.trim_end_matches('\n')).unwrap();
    assert_eq!(value.as_object().unwrap().len(), 7);
    assert_eq!((&value["type"], &value["epoch"]), (&Value::from("system_update"), &Value::from(3)));
    assert_eq!((&value["ram_mb"], &value["loss"]), (&Value::from(5), &Value::Null));
    assert!(value["accuracy"].is_f64());
}
