use image_trainer::python::{command, judge, judge_output, Attempt, PythonRun, PythonSearch};

fn finished(success: bool, code: Option<i32>, stdout: &[u8], stderr: &[u8]) -> Attempt {
    Attempt::Finished { success, code, stdout: stdout.to_vec(), stderr: stderr.to_vec() }
}

#[test]
fn commands_come_in_order() {
    assert_eq!(command(0), Some("python"));
    assert_eq!(command(1), Some("python3"));
    assert_eq!(command(2), Some("py"));
    assert_eq!(command(3), None);
}

#[test]
fn first_success_ends_the_run() {
    let mut run = PythonRun::new();
    assert_eq!(run.next_command(), Some("python"));
    run.record(Attempt::NotStarted("not found".to_string()));
    assert_eq!(run.next_command(), Some("python3"));
    run.record(finished(true, Some(0), b" out \n", b"warning"));
    assert_eq!(run.next_command(), None);
    assert_eq!(run.finish(), Ok(" out \n".to_string()));
}

#[test]
fn last_error_is_reported() {
    let mut run = PythonRun::new();
    run.record(finished(false, Some(1), b"o", b"first"));
    run.record(finished(false, Some(1), b"o", b"second"));
    run.record(Attempt::NotStarted("third".to_string()));
    assert_eq!(run.next_command(), None);
    assert_eq!(run.finish(), Err("third".to_string()));
}

#[test]
fn run_without_attempts_has_an_empty_error() {
    assert_eq!(PythonRun::new().finish(), Err(String::new()));
}

#[test]
fn failures_are_explained_by_what_was_written() {
    let s = |t: &str| t.to_string();
    assert_eq!(judge_output(false, Some(2), s("out"), s(" err\n")), Err(s(" err\n")));
    assert_eq!(judge_output(false, Some(2), s("out"), s(" \n")), Err(s("out")));
    assert_eq!(judge_output(false, Some(2), s(""), s("")), Err(s("Exited with code: 2")));
    assert_eq!(judge_output(false, Some(-9), s(" "), s("\t")), Err(s("Exited with code: -9")));
    assert_eq!(judge_output(false, None, s(""), s("")), Err(s("Exited with code: -1")));
    assert_eq!(judge_output(true, Some(0), s(""), s("err")), Ok(s("")));
}

#[test]
fn output_is_read_as_text() {
    assert_eq!(judge(finished(true, Some(0), "caf\u{e9}".as_bytes(), b"")), Ok("caf\u{e9}".to_string()));
    assert_eq!(judge(finished(true, Some(0), b"a\xffb", b"")), Ok("a\u{fffd}b".to_string()));
    assert_eq!(judge(finished(false, Some(1), b"", b"\xff")), Err("\u{fffd}".to_string()));
}

#[test]
fn search_finds_the_first_command_that_works() {
    let mut search = PythonSearch::new();
    assert_eq!(search.next_command(), Some("python"));
    search.record(None);
    assert_eq!(search.next_command(), Some("python3"));
    search.record(Some(false));
    assert_eq!(search.next_command(), Some("py"));
    search.record(Some(true));
    assert_eq!(search.next_command(), None);
    assert_eq!(search.finish(), Some("py"));
}

#[test]
fn search_stops_at_a_success() {
    let mut search = PythonSearch::new();
    search.record(Some(true));
    assert_eq!(search.next_command(), None);
    assert_eq!(search.finish(), Some("python"));
}

#[test]
fn search_may_find_nothing() {
    let mut search = PythonSearch::new();
    assert_eq!(search.finish(), None);
    for _ in 0..3 {
        search.record(Some(false));
    }
    assert_eq!(search.next_command(), None);
    assert_eq!(search.finish(), None);
}

#[test]
fn search_and_run_try_the_same_commands() {
    let mut search = PythonSearch::new();
    let mut run = PythonRun::new();
    for _ in 0..3 {
        assert_eq!(search.next_command(), run.next_command());
        search.record(None);
        run.record(Attempt::NotStarted(String::new()));
    }
    assert_eq!(search.next_command(), run.next_command());
}
