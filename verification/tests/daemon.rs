use image_trainer::daemon::LlmDaemon;
use image_trainer::launch::{stop_command, Load, Program};
use image_trainer::status::LlmStatus;

fn ready(daemon: &mut LlmDaemon) {
    daemon.stdout_line("{\"title\": \"LLM Ready\"}", "m.gguf");
}

#[test]
fn starts_unloaded() {
    let daemon = LlmDaemon::new();
    assert_eq!(daemon.get_llm_status(), "not_loaded");
    assert!(!daemon.is_ready());
    let load = daemon.spawn_llm_daemon();
    assert_eq!((load.kill, load.model_path.as_str(), load.conda_env.as_str()), (None, "", ""));
}

#[test]
fn loads_and_becomes_ready() {
    let mut daemon = LlmDaemon::new();
    let load = daemon.load_llm_model("/models/phi.gguf".to_string(), Some("gpu".to_string()));
    assert_eq!(load.kill, None);
    assert_eq!(load.conda_env, "gpu");
    assert_eq!(daemon.get_llm_status(), "not_loaded");
    daemon.load_started();
    assert_eq!(daemon.get_llm_status(), "loading");
    assert!(daemon.spawned(Program::Conda, Ok(Some(42))));
    assert_eq!(daemon.get_llm_status(), "loading");
    let line = "{\"tag\": \"info\", \"title\": \"LLM Ready (4 bit)\", \"n\": 1.5}";
    let value = daemon.stdout_line(line, &load.model_path).unwrap();
    assert_eq!(daemon.get_llm_status(), "ready:phi.gguf");
    assert!(daemon.is_ready());
    assert_eq!(
        value.to_string(),
        "{\"model\":\"phi.gguf\",\"n\":1.5,\"tag\":\"info\",\"title\":\"LLM Ready (4 bit)\"}"
    );
    let again = daemon.load_llm_model(String::new(), None);
    assert_eq!(again.kill, Some(42));
    assert_eq!(again.conda_env, "");
}

#[test]
fn environment_is_kept_for_later_starts() {
    let mut daemon = LlmDaemon::new();
    let load = daemon.set_llm_conda_env("nocode_train".to_string());
    assert_eq!((load.model_path.as_str(), load.conda_env.as_str()), ("", "nocode_train"));
    assert_eq!(daemon.spawn_llm_daemon().conda_env, "nocode_train");
    daemon.load_started();
    daemon.spawned(Program::Conda, Ok(Some(3)));
    daemon.exited(Some(3));
    assert_eq!(daemon.spawn_llm_daemon().conda_env, "nocode_train");
}

#[test]
fn change_of_environment_keeps_the_model() {
    let mut daemon = LlmDaemon::new();
    let load = daemon.load_llm_model("/models/llama.gguf".to_string(), None);
    daemon.load_started();
    assert_eq!(daemon.set_llm_conda_env("a".to_string()).model_path, "");
    let load = daemon.load_llm_model(load.model_path, None);
    daemon.spawned(Program::SystemPython, Ok(Some(1)));
    daemon.stdout_line("{\"title\":\"LLM Ready\"}", &load.model_path);
    assert_eq!(daemon.get_llm_status(), "ready:llama.gguf");
    let load = daemon.set_llm_conda_env("gpu".to_string());
    assert_eq!((load.kill, load.model_path.as_str()), (Some(1), "/models/llama.gguf"));
    let launch = daemon.script_located(&load, Ok("llm.py".to_string())).unwrap();
    assert_eq!(launch.args[5..], ["llm.py", "--model", "/models/llama.gguf"]);
}

#[test]
fn running_process_is_stopped() {
    let mut daemon = LlmDaemon::new();
    daemon.spawned(Program::SystemPython, Ok(Some(1)));
    daemon.spawned(Program::SystemPython, Ok(Some(2)));
    assert_eq!(daemon.child_pid(), Some(2));
    daemon.exited(Some(1));
    assert_eq!(daemon.load_llm_model(String::new(), None).kill, Some(2));
    assert_eq!(daemon.load_llm_model(String::new(), None).kill, Some(2));
}

#[test]
fn ended_process_is_not_stopped() {
    let mut daemon = LlmDaemon::new();
    daemon.spawned(Program::SystemPython, Ok(Some(9)));
    daemon.exited(Some(9));
    assert_eq!(daemon.child_pid(), None);
    assert_eq!(daemon.load_llm_model(String::new(), None).kill, None);
}

#[test]
fn end_of_a_replaced_process_changes_nothing() {
    let mut daemon = LlmDaemon::new();
    daemon.spawned(Program::SystemPython, Ok(Some(10)));
    ready(&mut daemon);
    daemon.load_llm_model(String::new(), None);
    daemon.load_started();
    daemon.spawned(Program::SystemPython, Ok(Some(20)));
    daemon.exited(Some(10));
    assert_eq!(daemon.get_llm_status(), "loading");
    assert_eq!(daemon.child_pid(), Some(20));
    assert!(daemon.is_input_open());
    daemon.exited(Some(20));
    assert_eq!(daemon.get_llm_status(), "not_loaded");
    assert!(!daemon.is_input_open());
}

#[test]
fn end_of_a_stopped_process_keeps_the_load() {
    let mut daemon = LlmDaemon::new();
    daemon.spawned(Program::SystemPython, Ok(Some(10)));
    ready(&mut daemon);
    assert_eq!(daemon.load_llm_model(String::new(), None).kill, Some(10));
    daemon.load_started();
    daemon.exited(Some(10));
    assert_eq!(daemon.get_llm_status(), "loading");
    assert_eq!(daemon.child_pid(), None);
}

#[test]
fn input_is_open_while_a_process_can_be_written_to() {
    let mut daemon = LlmDaemon::new();
    assert!(!daemon.is_input_open());
    daemon.spawned(Program::SystemPython, Ok(Some(1)));
    assert!(daemon.is_input_open());
    daemon.load_started();
    assert!(!daemon.is_input_open());
    daemon.spawned(Program::SystemPython, Ok(Some(2)));
    daemon.write_failed();
    assert!(!daemon.is_input_open());
    daemon.spawned(Program::SystemPython, Ok(Some(3)));
    daemon.spawned(Program::Conda, Err("x".to_string()));
    assert!(daemon.is_input_open());
    daemon.exited(Some(3));
    assert!(!daemon.is_input_open());
}

#[test]
fn chat_needs_an_open_input() {
    let refused =
        Err("LLM daemon is not running. Load a model first via the Co-Pilot sidebar.".to_string());
    let mut daemon = LlmDaemon::new();
    assert_eq!(daemon.send_chat_message("hi"), refused);
    daemon.spawned(Program::SystemPython, Ok(Some(1)));
    assert_eq!(
        daemon.send_chat_message("hi"),
        Ok("{\"message\":\"hi\",\"type\":\"user_chat\"}\n".to_string())
    );
    daemon.write_failed();
    ready(&mut daemon);
    assert_eq!(daemon.send_chat_message("hi"), refused);
}

#[test]
fn discovered_model_is_unknown() {
    let mut daemon = LlmDaemon::new();
    let value = daemon.stdout_line("{\"title\":\"LLM Ready\",\"model\":\"x\"}", "").unwrap();
    assert_eq!(daemon.get_llm_status(), "ready:unknown");
    assert_eq!(value.to_string(), "{\"model\":\"unknown\",\"title\":\"LLM Ready\"}");
}

#[test]
fn model_is_ready_under_its_file_name() {
    let mut daemon = LlmDaemon::new();
    for (path, status) in [
        ("m.gguf", "ready:m.gguf"),
        ("/models/phi 3.gguf", "ready:phi 3.gguf"),
        ("models//x/", "ready:x"),
        ("models/x/./", "ready:x"),
        ("./x", "ready:x"),
        ("models/..", "ready:unknown"),
        (".", "ready:unknown"),
        ("/", "ready:unknown"),
        ("...", "ready:..."),
        ("C:/models/llama.gguf", "ready:llama.gguf"),
        ("/models/llama:7b.gguf", "ready:llama:7b.gguf"),
        ("/models/a:b", "ready:a:b"),
        ("C:\\models/llama.gguf", "ready:llama.gguf"),
    ] {
        daemon.stdout_line("{\"title\":\"LLM Ready\"}", path);
        assert_eq!(daemon.get_llm_status(), status);
    }
}

#[test]
fn failures_are_reported() {
    for title in ["LLM Unavailable", "Model Not Found", "LLM Load Failed"] {
        let mut daemon = LlmDaemon::new();
        daemon.load_started();
        daemon.spawned(Program::SystemPython, Ok(Some(5)));
        let line = format!("{{\"title\":\"{}\"}}", title);
        let value = daemon.stdout_line(&line, "m").unwrap();
        assert_eq!(value.to_string(), line);
        assert_eq!(daemon.get_llm_status(), format!("error:{}", title));
        daemon.exited(Some(5));
        assert_eq!(daemon.get_llm_status(), format!("error:{}", title));
    }
}

#[test]
fn other_reports_are_passed_on_unchanged() {
    let mut daemon = LlmDaemon::new();
    daemon.load_started();
    for line in [
        "{\"title\":\"LLM Unavailable now\"}",
        "{\"title\":\"The LLM Ready\"}",
        "{\"title\":7}",
        "{\"body\":\"LLM Ready\"}",
        "[1,2,null]",
        "\"LLM Ready\"",
    ] {
        let value = daemon.stdout_line(line, "m").unwrap();
        assert_eq!(value.to_string(), line);
        assert_eq!(daemon.get_llm_status(), "loading");
    }
}

#[test]
fn lines_without_json_are_dropped() {
    let mut daemon = LlmDaemon::new();
    daemon.load_started();
    for line in ["", "LLM Ready", "{\"title\":\"LLM Ready\"", "{\"title\":\"LLM Ready\"} x"] {
        assert!(daemon.stdout_line(line, "m").is_none());
        assert_eq!(daemon.get_llm_status(), "loading");
    }
}

#[test]
fn parsed_report_is_applied() {
    let mut daemon = LlmDaemon::new();
    let insight: serde_json::Value = serde_json::from_str("{\"title\":\"LLM Ready\"}").unwrap();
    let passed = daemon.reported(insight, Some("phi".to_string()));
    assert_eq!(passed.to_string(), "{\"model\":\"phi\",\"title\":\"LLM Ready\"}");
    assert_eq!(daemon.get_llm_status(), "ready:phi");
}

#[test]
fn no_model_outlives_its_process() {
    let mut daemon = LlmDaemon::new();
    daemon.spawned(Program::SystemPython, Ok(Some(1)));
    ready(&mut daemon);
    daemon.exited(Some(1));
    assert_eq!(daemon.get_llm_status(), "not_loaded");
    daemon.load_started();
    daemon.spawned(Program::SystemPython, Ok(Some(2)));
    daemon.exited(Some(2));
    assert_eq!(daemon.get_llm_status(), "not_loaded");
    daemon.exited(Some(2));
    assert_eq!(daemon.get_llm_status(), "not_loaded");
}

#[test]
fn start_up_fails_with_its_reason() {
    let mut daemon = LlmDaemon::new();
    let load = daemon.spawn_llm_daemon();
    assert!(daemon.script_located(&load, Err("no dir".to_string())).is_none());
    assert_eq!(daemon.get_llm_status(), "error:no dir");
    assert_eq!(daemon.program_name(Program::SystemPython, None), None);
    assert_eq!(daemon.get_llm_status(), "error:Python not found");
    assert!(!daemon.spawned(Program::Conda, Err("gone".to_string())));
    assert_eq!(daemon.get_llm_status(), "error:conda spawn failed: gone");
    assert!(!daemon.spawned(Program::SystemPython, Err("gone".to_string())));
    assert_eq!(daemon.get_llm_status(), "error:gone");
}

#[test]
fn script_is_started_directly_or_through_conda() {
    let mut daemon = LlmDaemon::new();
    let load = daemon.load_llm_model("m.gguf".to_string(), None);
    let launch = daemon.script_located(&load, Ok("\\\\?\\C:\\llm.py".to_string())).unwrap();
    assert_eq!(launch.program, Program::SystemPython);
    assert_eq!(launch.args, ["C:\\llm.py", "--model", "m.gguf"]);
    assert_eq!(daemon.program_name(launch.program, Some("python3")), Some("python3"));

    let load = daemon.set_llm_conda_env("gpu".to_string());
    let launch = daemon.script_located(&load, Ok("llm.py".to_string())).unwrap();
    assert_eq!(launch.program, Program::Conda);
    assert_eq!(launch.args, ["run", "-n", "gpu", "--no-capture-output", "python", "llm.py"]);
    assert_eq!(daemon.program_name(launch.program, None), Some("conda"));
    assert_eq!(daemon.get_llm_status(), "not_loaded");
}

#[test]
fn load_is_announced() {
    let load = |path: &str, env: &str| Load {
        kill: None,
        model_path: path.to_string(),
        conda_env: env.to_string(),
    };
    assert_eq!(
        load("/m/phi.gguf", "gpu").insight().to_string(),
        "{\"body\":\"Loading phi.gguf via conda:gpu\",\"tag\":\"advice\",\"title\":\"Loading Model\u{2026}\"}"
    );
    assert_eq!(
        load("", "").insight().to_string(),
        "{\"body\":\"Loading auto-discover via system Python\",\"tag\":\"advice\",\"title\":\"Loading Model\u{2026}\"}"
    );
    assert_eq!(load("..", "").announcement(None), "Loading model via system Python");
    assert_eq!(
        load("x/y", "e").announcement(Some("y".to_string())),
        "Loading y via conda:e"
    );
}

#[test]
fn processes_are_stopped_by_number() {
    let (program, args) = stop_command(4321, true);
    assert_eq!(program, "taskkill");
    assert_eq!(args, ["/PID", "4321", "/F"]);
    let (program, args) = stop_command(7, false);
    assert_eq!(program, "kill");
    assert_eq!(args, ["-9", "7"]);
}

#[test]
fn states_are_reported_by_distinct_texts() {
    let texts = [
        LlmStatus::NotLoaded.text(),
        LlmStatus::Loading.text(),
        LlmStatus::Ready("x".to_string()).text(),
        LlmStatus::Error("x".to_string()).text(),
    ];
    assert_eq!(texts, ["not_loaded", "loading", "ready:x", "error:x"]);
    assert!(LlmStatus::Ready(String::new()).is_ready());
    assert!(!LlmStatus::Error("ready:".to_string()).is_ready());
}
