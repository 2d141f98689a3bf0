use image_trainer::clients::broadcast_log;
use image_trainer::commands::{
    dataset_analyzer_args, dataset_answer, dependencies_answer, dependency_args, gpu_answer,
    script_argument, system_info_answer, tabular_processor_args, Script,
};
use image_trainer::runs::{fetch_runs, is_run_file, RunFile, DIRECTORY};

fn s(text: &str) -> String {
    text.to_string()
}

#[test]
fn scripts_have_their_places() {
    assert_eq!(Script::TabularProcessor.location(), ("python_backend", "tabular_processor.py"));
    assert_eq!(Script::CheckGpu.location(), ("python_backend", "check_gpu.py"));
    assert_eq!(Script::SystemInfo.location(), ("python_backend", "system_info.py"));
    assert_eq!(Script::DatasetAnalyzer.location(), ("python_backend", "dataset_analyzer.py"));
    assert_eq!(Script::LlmMonitor.location(), ("python_backend", "llm_monitor.py"));
}

#[test]
fn verbatim_mark_is_dropped() {
    assert_eq!(script_argument("\\\\?\\C:\\app\\x.py"), "C:\\app\\x.py");
    assert_eq!(script_argument("/opt/app/x.py"), "/opt/app/x.py");
    assert_eq!(script_argument(""), "");
    assert_eq!(script_argument("\\\\?\\a\\\\?\\b"), "ab");
}

#[test]
fn tabular_processor_gets_what_was_chosen() {
    assert_eq!(
        tabular_processor_args(s("t.py"), s("d.csv"), s("clean"), Some(s("{}")), Some(s("o.csv"))),
        ["t.py", "--action", "clean", "--file", "d.csv", "--params", "{}", "--out", "o.csv"]
    );
    assert_eq!(
        tabular_processor_args(s("t.py"), s("d.csv"), s("clean"), None, Some(s("o.csv"))),
        ["t.py", "--action", "clean", "--file", "d.csv", "--out", "o.csv"]
    );
    assert_eq!(
        tabular_processor_args(s("t.py"), s("d.csv"), s("clean"), Some(s("p")), None),
        ["t.py", "--action", "clean", "--file", "d.csv", "--params", "p"]
    );
    assert_eq!(
        tabular_processor_args(s("t.py"), s("d.csv"), s("clean"), None, None),
        ["t.py", "--action", "clean", "--file", "d.csv"]
    );
}

#[test]
fn dataset_analyzer_gets_the_path() {
    assert_eq!(dataset_analyzer_args(s("a.py"), s("/data")), ["a.py", "--path", "/data"]);
}

#[test]
fn answers_are_trimmed_and_failures_announced() {
    assert_eq!(gpu_answer(Ok(s(" {\"gpu\": 1}\n"))), Ok(s("{\"gpu\": 1}")));
    assert_eq!(gpu_answer(Err(s("boom\n"))), Err(s("GPU detection failed: boom\n")));
    assert_eq!(system_info_answer(Ok(s("\tx\r\n"))), Ok(s("x")));
    assert_eq!(system_info_answer(Err(s("boom"))), Err(s("System info failed: boom")));
    assert_eq!(dataset_answer(Ok(s("x"))), Ok(s("x")));
    assert_eq!(dataset_answer(Err(s(""))), Err(s("Dataset analysis failed: ")));
}

#[test]
fn dependency_probe_is_one_program() {
    let args = dependency_args();
    assert_eq!(args.len(), 2);
    assert_eq!(args[0], "-c");
    assert_eq!(
        args[1],
        "import sys, json, importlib.util; p = lambda x: importlib.util.find_spec(x) is not None; \
         print(json.dumps({'python': True, 'executable': sys.executable, 'version': sys.version.split()[0], \
         'pandas': p('pandas'), 'sklearn': p('sklearn'), 'torch': p('torch'), 'timm': p('timm'), \
         'optuna': p('optuna'), 'llama_cpp': p('llama_cpp')}))"
    );
}

#[test]
fn missing_python_is_an_answer() {
    assert_eq!(dependencies_answer(Ok(s(" {\"python\": true}\n"))), Ok(s("{\"python\": true}")));
    let answer = dependencies_answer(Err(s("no \"python\"\nfound"))).unwrap();
    assert_eq!(
        answer,
        "{\"python\": false, \"version\": null, \"pandas\": false, \"sklearn\": false, \
         \"torch\": false, \"timm\": false, \"optuna\": false, \"llama_cpp\": false, \
         \"error\": \"no \\\"python\\\" found\"}"
    );
    let value: serde_json::Value = serde_json::from_str(&answer).unwrap();
    assert_eq!(value["python"], false);
    assert_eq!(value["error"], "no \"python\" found");
    for key in ["pandas", "sklearn", "torch", "timm", "optuna", "llama_cpp"] {
        assert_eq!(value[key], false);
    }
    assert_eq!(value["version"], serde_json::Value::Null);
    assert_eq!(value.as_object().unwrap().len(), 9);
}

#[test]
fn errors_without_backslashes_are_read_back_on_one_line() {
    for (error, line) in [
        ("", ""),
        ("\n\n", "  "),
        ("\"", "\""),
        ("a\"\"b\n\"c\"", "a\"\"b \"c\""),
        ("\u{7f}\u{1F600}{\"x\": 1}, ]", "\u{7f}\u{1F600}{\"x\": 1}, ]"),
    ] {
        let answer = dependencies_answer(Err(s(error))).unwrap();
        let value: serde_json::Value = serde_json::from_str(&answer).unwrap();
        assert_eq!(value["error"], line);
        assert_eq!(value.as_object().unwrap().len(), 9);
    }
    let answer = dependencies_answer(Err(s("C:\\x"))).unwrap();
    assert!(serde_json::from_str::<serde_json::Value>(&answer).is_err());
}

#[test]
fn runs_are_read_as_an_array_of_their_values() {
    let deep = |n: usize| format!("{}{}", "[".repeat(n), "]".repeat(n));
    let texts = [s(" {\"a\": [1, 2]}\n"), s("null"), s("\"x,y\""), s("-1.5"), deep(126)];
    let files: Vec<RunFile> = texts
        .iter()
        .map(|text| RunFile { extension: Some(s("json")), content: Some(text.clone()) })
        .collect();
    let value: serde_json::Value = serde_json::from_str(&fetch_runs(Some(&files))).unwrap();
    let values = value.as_array().unwrap();
    assert_eq!(values.len(), texts.len());
    for (value, text) in values.iter().zip(texts.iter()) {
        assert_eq!(*value, serde_json::from_str::<serde_json::Value>(text).unwrap());
    }
    let files = vec![RunFile { extension: Some(s("json")), content: Some(deep(127)) }];
    assert!(serde_json::from_str::<serde_json::Value>(&deep(127)).is_ok());
    assert!(serde_json::from_str::<serde_json::Value>(&fetch_runs(Some(&files))).is_err());
}

#[test]
fn runs_are_listed_as_an_array() {
    let file = |extension: Option<&str>, content: Option<&str>| RunFile {
        extension: extension.map(s),
        content: content.map(s),
    };
    assert_eq!(DIRECTORY, "experiments");
    assert_eq!(fetch_runs(None), "[]");
    assert_eq!(fetch_runs(Some(&vec![])), "[]");
    let files = vec![
        file(Some("json"), Some("{\"a\":1}")),
        file(Some("txt"), Some("no")),
        file(None, Some("no")),
        file(Some("json"), None),
        file(Some("json"), Some("{\"b\":2}")),
        file(Some("JSON"), Some("no")),
    ];
    let list = fetch_runs(Some(&files));
    assert_eq!(list, "[{\"a\":1},{\"b\":2}]");
    let value: serde_json::Value = serde_json::from_str(&list).unwrap();
    assert_eq!(value[1]["b"], 2);
    assert_eq!(value.as_array().unwrap().len(), 2);
}

#[test]
fn only_json_files_hold_runs() {
    assert!(is_run_file(&Some(s("json"))));
    assert!(!is_run_file(&Some(s("jsonl"))));
    assert!(!is_run_file(&Some(s(""))));
    assert!(!is_run_file(&None));
}

#[test]
fn extension_is_read_from_the_path() {
    for (path, extension) in [
        ("/save/experiments/run.json", Some("json")),
        ("run.tar.json", Some("json")),
        ("run.JSON", Some("JSON")),
        ("run.", Some("")),
        ("run", None),
        (".json", None),
        ("a.json/b", None),
        ("a.json/..", None),
        ("", None),
        ("C:/save/run.json", Some("json")),
        ("/p/experiments/12:30.json", Some("json")),
        ("/1:2.json", Some("json")),
        ("C:\\save\\run.json", Some("json")),
    ] {
        let file = RunFile::at(path);
        assert_eq!(file.extension, extension.map(s), "{}", path);
        assert_eq!(is_run_file(&file.extension), extension == Some("json"));
        assert_eq!(file.content, None);
    }
}

#[test]
fn clients_that_were_not_reached_are_dropped() {
    assert_eq!(broadcast_log(vec![("a", true), ("b", false), ("c", true)]), ["a", "c"]);
    assert_eq!(broadcast_log(vec![("a", true), ("b", true)]), ["a", "b"]);
    assert_eq!(broadcast_log::<u8>(vec![(1, false)]), Vec::<u8>::new());
    assert_eq!(broadcast_log::<u8>(vec![]), Vec::<u8>::new());
}
