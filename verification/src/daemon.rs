//! The language-model daemon: its state and how every event changes it.
use crate::commands::{script_argument, without_mark};
use crate::json::{
    contents, get, insert, member, parse, parsed, rendered, text_member, text_value, with_member,
    Json,
};
use crate::launch::{launched, Launch, Load, LoadView, Program};
use crate::messages::{chat_line, framed, user_chat};
use crate::model::{
    begins_as_share, file_is_called_by_its_name, file_name, fits_path, may_hold_drive,
    name_follows_the_last_slash, plain_name,
};
use crate::status::{LlmStatus, StatusView};
use crate::text::{followed_by, optional_text, result_text, same_text, starts_with};
use vstd::prelude::*;

verus! {

/// The state of the daemon, as data.
pub struct DaemonView {
    pub status: StatusView,
    /// The process that runs, as far as is known.
    pub child_pid: Option<u32>,
    /// Whether a load has asked for that process to be stopped.
    pub stopping: bool,
    /// Whether something can be written to the process.
    pub input_open: bool,
    /// The environment of the last load.
    pub conda_env: Seq<char>,
    /// The model of the last load; empty where the daemon was to look for one itself.
    pub model_path: Seq<char>,
}

/// What can happen to the daemon.
pub enum Event {
    /// The user asks for a model, in an environment or in none. The process that runs is to be
    /// stopped.
    LoadRequested { path: Seq<char>, env: Option<Seq<char>> },
    /// The process that ran before is cut off, and the load begins.
    LoadStarted,
    /// The directory that holds the script cannot be found, for the reason given.
    NoResourceDir(Seq<char>),
    /// No command starts Python.
    NoPython,
    /// The program that runs the script cannot be started, for the reason given.
    SpawnFailed(Program, Seq<char>),
    /// The script runs, as the process of that number.
    Spawned(Option<u32>),
    /// The script reports something under a title, while the model file of that name is loaded.
    Reported { title: Option<Seq<char>>, file_name: Option<Seq<char>> },
    /// What was to be written to the process could not be.
    WriteFailed,
    /// The process of that number has ended.
    Exited(Option<u32>),
}

/// Whether a title reports that the model is loaded.
pub open spec fn reports_ready(title: Seq<char>) -> bool {
    "LLM Ready"@.is_prefix_of(title)
}

/// Whether a title reports that the model cannot be used.
pub open spec fn reports_failure(title: Seq<char>) -> bool {
    ||| title == "LLM Unavailable"@
    ||| title == "Model Not Found"@
    ||| title == "LLM Load Failed"@
}

/// The name of the loaded model, as it is shown.
pub open spec fn shown_name(file_name: Option<Seq<char>>) -> Seq<char> {
    match file_name {
        Some(name) => name,
        None => "unknown"@,
    }
}

/// The insight `j` as it is passed on: a report that the model is loaded carries the model's name.
pub open spec fn passed_on(j: Json, file_name: Option<Seq<char>>) -> Json {
    match text_member(j, "title"@) {
        Some(title) => if reports_ready(title) {
            with_member(j, "model"@, Json::Text(shown_name(file_name)))
        } else {
            j
        },
        None => j,
    }
}

impl DaemonView {
    /// Before anything has happened.
    pub open spec fn start() -> DaemonView {
        DaemonView {
            status: StatusView::NotLoaded,
            child_pid: None,
            stopping: false,
            input_open: false,
            conda_env: seq![],
            model_path: seq![],
        }
    }

    /// The model that a change of the environment keeps: the one that is loaded.
    pub open spec fn kept_model(self) -> Seq<char> {
        if self.status is Ready {
            self.model_path
        } else {
            seq![]
        }
    }

    /// After `event`.
    pub open spec fn step(self, event: Event) -> DaemonView {
        match event {
            Event::LoadRequested { path, env } => DaemonView {
                stopping: self.child_pid is Some,
                conda_env: match env {
                    Some(name) => name,
                    None => seq![],
                },
                model_path: path,
                ..self
            },
            Event::LoadStarted => DaemonView {
                status: StatusView::Loading,
                input_open: false,
                ..self
            },
            Event::NoResourceDir(reason) => DaemonView {
                status: StatusView::Error(reason),
                ..self
            },
            Event::NoPython => DaemonView {
                status: StatusView::Error("Python not found"@),
                ..self
            },
            Event::SpawnFailed(Program::Conda, reason) => DaemonView {
                status: StatusView::Error("conda spawn failed: "@ + reason),
                ..self
            },
            Event::SpawnFailed(Program::SystemPython, reason) => DaemonView {
                status: StatusView::Error(reason),
                ..self
            },
            Event::Spawned(pid) => DaemonView {
                child_pid: pid,
                stopping: false,
                input_open: true,
                ..self
            },
            Event::Reported { title: Some(title), file_name } => if reports_ready(title) {
                DaemonView { status: StatusView::Ready(shown_name(file_name)), ..self }
            } else if reports_failure(title) {
                DaemonView { status: StatusView::Error(title), ..self }
            } else {
                self
            },
            Event::Reported { title: None, file_name } => self,
            Event::WriteFailed => DaemonView { input_open: false, ..self },
            Event::Exited(pid) => if pid != self.child_pid {
                self
            } else {
                DaemonView {
                    status: if self.status is Ready || (self.status is Loading && !self.stopping) {
                        StatusView::NotLoaded
                    } else {
                        self.status
                    },
                    child_pid: None,
                    stopping: false,
                    input_open: false,
                    ..self
                }
            },
        }
    }

    /// After `events`, in that order.
    pub open spec fn run(self, events: Seq<Event>) -> DaemonView
        decreases events.len(),
    {
        if events.len() == 0 {
            self
        } else {
            self.run(events.drop_last()).step(events.last())
        }
    }

    /// After `events`, from the beginning.
    pub open spec fn after(events: Seq<Event>) -> DaemonView {
        DaemonView::start().run(events)
    }

    /// What the user gets who says `message` to the daemon: the line to write, or the reason why
    /// there is none.
    pub open spec fn chat_answer(self, message: Seq<char>) -> Result<Seq<char>, Seq<char>> {
        if self.input_open {
            Ok(framed(user_chat(message)))
        } else {
            Err("LLM daemon is not running. Load a model first via the Co-Pilot sidebar."@)
        }
    }
}

/// The daemon's state.
pub struct LlmDaemon {
    status: LlmStatus,
    child_pid: Option<u32>,
    stopping: bool,
    input_open: bool,
    conda_env: String,
    model_path: String,
}

impl View for LlmDaemon {
    type V = DaemonView;

    closed spec fn view(&self) -> DaemonView {
        DaemonView {
            status: self.status@,
            child_pid: self.child_pid,
            stopping: self.stopping,
            input_open: self.input_open,
            conda_env: self.conda_env@,
            model_path: self.model_path@,
        }
    }
}

impl LlmDaemon {
    /// A daemon that was never started.
    pub fn new() -> (daemon: LlmDaemon)
        ensures
            daemon@ == DaemonView::start(),
    {
        LlmDaemon {
            status: LlmStatus::NotLoaded,
            child_pid: None,
            stopping: false,
            input_open: false,
            conda_env: String::new(),
            model_path: String::new(),
        }
    }

    /// The state as it is reported to the user.
    pub fn get_llm_status(&self) -> (text: String)
        ensures
            text@ == self@.status.text(),
    {
        self.status.text()
    }

    /// Whether a model is loaded.
    pub fn is_ready(&self) -> (yes: bool)
        ensures
            yes == (self@.status is Ready),
    {
        self.status.is_ready()
    }

    /// The process that runs, as far as is known.
    pub fn child_pid(&self) -> (pid: Option<u32>)
        ensures
            pid == self@.child_pid,
    {
        self.child_pid
    }

    /// Whether something can be written to the process. Where not, its input is to be dropped.
    pub fn is_input_open(&self) -> (yes: bool)
        ensures
            yes == self@.input_open,
    {
        self.input_open
    }

    /// Says `message` to the daemon: the line to write, or the reason why there is none.
    pub fn send_chat_message(&self, message: &str) -> (result: Result<String, String>)
        ensures
            result_text(result) == self@.chat_answer(message@),
            result matches Ok(line) ==> !line@.drop_last().contains('\n') && parsed(
                line@.drop_last(),
            ) == Some(user_chat(message@)),
    {
        if self.input_open {
            Ok(chat_line(message))
        } else {
            Err(
                "LLM daemon is not running. Load a model first via the Co-Pilot sidebar.".to_owned(),
            )
        }
    }

    /// The load with which the daemon starts by itself: it looks for a model in the environment
    /// that was used last.
    pub fn spawn_llm_daemon(&self) -> (load: Load)
        ensures
            load@ == (LoadView { kill: None, model_path: seq![], conda_env: self@.conda_env }),
    {
        Load { kill: None, model_path: String::new(), conda_env: self.conda_env.clone() }
    }

    /// The user asks for the model at `path`, in an environment or in none. Both are kept, and the
    /// process that runs is to be stopped.
    pub fn load_llm_model(&mut self, path: String, conda_env: Option<String>) -> (load: Load)
        ensures
            final(self)@ == old(self)@.step(
                Event::LoadRequested { path: path@, env: optional_text(conda_env) },
            ),
            load@ == (LoadView {
                kill: old(self)@.child_pid,
                model_path: path@,
                conda_env: final(self)@.conda_env,
            }),
    {
        let env = match conda_env {
            Some(name) => name,
            None => String::new(),
        };
        self.stopping = self.child_pid.is_some();
        self.conda_env = env.clone();
        self.model_path = path.clone();
        Load { kill: self.child_pid, model_path: path, conda_env: env }
    }

    /// The user changes the environment: the daemon is loaded anew in it, with the model that is
    /// loaded; where none is, it looks for one.
    pub fn set_llm_conda_env(&mut self, conda_env: String) -> (load: Load)
        ensures
            final(self)@ == old(self)@.step(
                Event::LoadRequested { path: old(self)@.kept_model(), env: Some(conda_env@) },
            ),
            load@ == (LoadView {
                kill: old(self)@.child_pid,
                model_path: old(self)@.kept_model(),
                conda_env: conda_env@,
            }),
    {
        let path = if self.status.is_ready() {
            self.model_path.clone()
        } else {
            String::new()
        };
        self.load_llm_model(path, Some(conda_env))
    }

    /// The process that ran before is cut off, and the load begins.
    pub fn load_started(&mut self)
        ensures
            final(self)@ == old(self)@.step(Event::LoadStarted),
    {
        self.status = LlmStatus::Loading;
        self.input_open = false;
    }

    /// The script is looked for: its path, or the reason why there is none. Returns the command
    /// line that starts it.
    pub fn script_located(&mut self, load: &Load, script: Result<String, String>) -> (launch:
        Option<Launch>)
        ensures
            (match result_text(script) {
                Ok(path) => {
                    &&& final(self)@ == old(self)@
                    &&& launch matches Some(command) && command@ == launched(
                        load@,
                        without_mark(path),
                    )
                },
                Err(reason) => launch is None && final(self)@ == old(self)@.step(
                    Event::NoResourceDir(reason),
                ),
            }),
    {
        match script {
            Ok(path) => Some(load.launch(script_argument(path.as_str()).as_str())),
            Err(reason) => {
                self.status = LlmStatus::Error(reason);
                None
            },
        }
    }

    /// The name of the program that is to be started, where `python` is the Python command that
    /// was found.
    pub fn program_name(&mut self, program: Program, python: Option<&'static str>) -> (name: Option<
        &'static str,
    >)
        ensures
            (match (program, python) {
                (Program::Conda, _) => name matches Some(s) && s@ == "conda"@ && final(self)@
                    == old(self)@,
                (Program::SystemPython, Some(command)) => name == Some(command) && final(self)@
                    == old(self)@,
                (Program::SystemPython, None) => name is None && final(self)@ == old(self)@.step(
                    Event::NoPython,
                ),
            }),
    {
        match program {
            Program::Conda => Some("conda"),
            Program::SystemPython => {
                if python.is_none() {
                    self.status = LlmStatus::Error("Python not found".to_owned());
                }
                python
            },
        }
    }

    /// The program was started, as the process of the given number, or could not be, for the
    /// reason given. Returns whether it runs.
    pub fn spawned(&mut self, program: Program, result: Result<Option<u32>, String>) -> (runs: bool)
        ensures
            (match result {
                Ok(pid) => runs && final(self)@ == old(self)@.step(Event::Spawned(pid)),
                Err(reason) => !runs && final(self)@ == old(self)@.step(
                    Event::SpawnFailed(program, reason@),
                ),
            }),
    {
        match result {
            Ok(pid) => {
                self.child_pid = pid;
                self.stopping = false;
                self.input_open = true;
                true
            },
            Err(reason) => {
                self.status = match program {
                    Program::Conda => LlmStatus::Error(
                        followed_by("conda spawn failed: ", reason.as_str()),
                    ),
                    Program::SystemPython => LlmStatus::Error(reason),
                };
                false
            },
        }
    }

    /// What was to be written to the process could not be.
    pub fn write_failed(&mut self)
        ensures
            final(self)@ == old(self)@.step(Event::WriteFailed),
    {
        self.input_open = false;
    }

    /// The process `pid` has ended. That of a process that was replaced changes nothing.
    pub fn exited(&mut self, pid: Option<u32>)
        ensures
            final(self)@ == old(self)@.step(Event::Exited(pid)),
    {
        if pid == self.child_pid {
            let cleared = match &self.status {
                LlmStatus::Ready(_) => true,
                LlmStatus::Loading => !self.stopping,
                _ => false,
            };
            if cleared {
                self.status = LlmStatus::NotLoaded;
            }
            self.child_pid = None;
            self.stopping = false;
            self.input_open = false;
        }
    }

    /// The script reports `insight`, while the model file of the given name is loaded. Returns the
    /// insight as it is passed on.
    pub fn reported(&mut self, insight: serde_json::Value, name: Option<String>) -> (passed:
        serde_json::Value)
        ensures
            final(self)@ == old(self)@.step(
                Event::Reported {
                    title: text_member(contents(insight), "title"@),
                    file_name: optional_text(name),
                },
            ),
            contents(passed) == passed_on(contents(insight), optional_text(name)),
            forall|rest: Seq<char>|
                text_member(contents(insight), "title"@) == Some(
                    #[trigger] ("LLM Ready"@ + rest),
                ) ==> final(self)@.status == StatusView::Ready(
                    match name {
                        Some(n) => n@,
                        None => "unknown"@,
                    },
                ),
    {
        proof {
            assert forall|rest: Seq<char>|
                reports_ready(#[trigger] ("LLM Ready"@ + rest)) by {
                ready_title_may_go_on(rest);
            }
        }
        let mut insight = insight;
        let title = match get(&insight, "title") {
            Some(value) => match value.as_str() {
                Some(text) => Some(text.to_owned()),
                None => None,
            },
            None => None,
        };
        if let Some(title) = title {
            if starts_with(title.as_str(), "LLM Ready") {
                let shown = match name {
                    Some(n) => n,
                    None => "unknown".to_owned(),
                };
                self.status = LlmStatus::Ready(shown.clone());
                insert(&mut insight, "model".to_owned(), text_value(shown));
            } else if same_text(title.as_str(), "LLM Unavailable") || same_text(
                title.as_str(),
                "Model Not Found",
            ) || same_text(title.as_str(), "LLM Load Failed") {
                self.status = LlmStatus::Error(title);
            }
        }
        insight
    }

    /// The script writes `line` to its output, while the model at `model_path` is loaded. Returns
    /// the insight to pass on; a line that is no JSON is dropped.
    pub fn stdout_line(&mut self, line: &str, model_path: &str) -> (passed: Option<
        serde_json::Value,
    >)
        ensures
            (match parsed(line@) {
                None => passed is None && final(self)@ == old(self)@,
                Some(j) => exists|name: Option<Seq<char>>|
                    {
                        &&& #[trigger] fits_path(name, model_path@)
                        &&& final(self)@ == old(self)@.step(
                            Event::Reported { title: text_member(j, "title"@), file_name: name },
                        )
                        &&& passed is Some
                        &&& contents(passed->0) == passed_on(j, name)
                    },
            }),
    {
        match parse(line) {
            Ok(insight) => {
                let name = file_name(model_path);
                let ghost found = optional_text(name);
                let passed = self.reported(insight, name);
                assert(fits_path(found, model_path@));
                Some(passed)
            },
            Err(_) => None,
        }
    }
}

/// Only a report that the model is loaded makes the daemon ready.
pub proof fn only_a_ready_report_makes_ready(daemon: DaemonView, event: Event)
    requires
        !(daemon.status is Ready),
        daemon.step(event).status is Ready,
    ensures
        event is Reported,
        event->title matches Some(title) && reports_ready(title),
{
}

/// A report that the model is loaded is passed on with the name under which the daemon is ready,
/// and with all its other members as they were.
pub proof fn ready_report_names_the_model(
    daemon: DaemonView,
    j: Json,
    name: Option<Seq<char>>,
    key: Seq<char>,
)
    requires
        text_member(j, "title"@) matches Some(title) && reports_ready(title),
        key != "model"@,
    ensures
        daemon.step(
            Event::Reported { title: text_member(j, "title"@), file_name: name },
        ).status matches StatusView::Ready(shown) && text_member(passed_on(j, name), "model"@)
            == Some(shown),
        member(passed_on(j, name), key) == member(j, key),
{
}

/// Any other insight is passed on as it is.
pub proof fn other_reports_are_passed_on_unchanged(j: Json, name: Option<Seq<char>>)
    requires
        !(text_member(j, "title"@) matches Some(title) && reports_ready(title)),
    ensures
        passed_on(j, name) == j,
{
}

/// A daemon whose process has ended is not ready, knows of no process and takes no input; an error
/// outlives the process, and a load that was not followed by another ends with it.
pub proof fn no_model_outlives_its_process(daemon: DaemonView)
    ensures
        ({
            let ended = daemon.step(Event::Exited(daemon.child_pid));
            &&& !(ended.status is Ready)
            &&& ended.child_pid is None
            &&& !ended.input_open
            &&& daemon.status is Error ==> ended.status == daemon.status
            &&& daemon.status is Loading && !daemon.stopping ==> ended.status is NotLoaded
        }),
{
}

/// The end of a process that was replaced changes nothing.
pub proof fn end_of_a_replaced_process_changes_nothing(daemon: DaemonView, pid: Option<u32>)
    requires
        pid != daemon.child_pid,
    ensures
        daemon.step(Event::Exited(pid)) == daemon,
{
}

/// The end of a process that a load has stopped leaves that load as it is, whether it is noticed
/// before the next process is started or after.
pub proof fn end_of_a_stopped_process_keeps_the_load(
    daemon: DaemonView,
    pid: u32,
    path: Seq<char>,
    env: Option<Seq<char>>,
    next: Option<u32>,
)
    requires
        daemon.child_pid == Some(pid),
        next != Some(pid),
    ensures
        ({
            let loading = daemon.step(Event::LoadRequested { path, env }).step(Event::LoadStarted);
            &&& loading.step(Event::Exited(Some(pid))).status is Loading
            &&& loading.step(Event::Spawned(next)).step(Event::Exited(Some(pid))).status is Loading
        }),
{
}

/// A load stops no process that has ended: its number is forgotten.
pub proof fn ended_process_is_not_stopped(daemon: DaemonView, pid: Option<u32>)
    ensures
        daemon.step(Event::Spawned(pid)).step(Event::Exited(pid)).child_pid is None,
{
}

/// A change of the environment keeps the model that is loaded: the script is told its path again.
pub proof fn change_of_environment_keeps_the_model(
    daemon: DaemonView,
    env: Seq<char>,
    script: Seq<char>,
    kill: Option<u32>,
)
    requires
        daemon.status is Ready,
        daemon.model_path.len() > 0,
    ensures
        daemon.step(
            Event::LoadRequested { path: daemon.kept_model(), env: Some(env) },
        ).model_path == daemon.model_path,
        launched(
            LoadView { kill, model_path: daemon.kept_model(), conda_env: env },
            script,
        ).args.contains(daemon.model_path),
{
    let args = launched(
        LoadView { kill, model_path: daemon.kept_model(), conda_env: env },
        script,
    ).args;
    assert(args.last() == daemon.model_path);
}

/// A daemon that looked for its model itself becomes ready under the name `unknown`.
pub proof fn discovered_model_is_unknown(
    daemon: DaemonView,
    title: Seq<char>,
    name: Option<Seq<char>>,
)
    requires
        reports_ready(title),
        fits_path(name, seq![]),
    ensures
        daemon.step(Event::Reported { title: Some(title), file_name: name }).status.text()
            == "ready:"@ + "unknown"@,
{
}

/// A report that the model is loaded makes the daemon ready under the name that is shown.
proof fn ready_under_the_shown_name(daemon: DaemonView, title: Seq<char>, name: Option<Seq<char>>)
    requires
        reports_ready(title),
    ensures
        daemon.step(Event::Reported { title: Some(title), file_name: name }).status.text()
            == "ready:"@ + shown_name(name),
{
}

/// A model becomes ready under the name of its file, in whatever directory it is.
pub proof fn model_is_ready_under_its_file_name(
    daemon: DaemonView,
    title: Seq<char>,
    directory: Seq<char>,
    file: Seq<char>,
    name: Option<Seq<char>>,
)
    requires
        reports_ready(title),
        directory.len() == 0 || directory.last() == '/',
        plain_name(file),
        !begins_as_share(directory + file),
        !may_hold_drive(file, directory + file),
        fits_path(name, directory + file),
    ensures
        daemon.step(Event::Reported { title: Some(title), file_name: name }).status.text()
            == "ready:"@ + file,
{
    ready_under_the_shown_name(daemon, title, name);
    file_is_called_by_its_name(directory, file, name);
}

/// The environment and the model of the last request in `events`; empty before the first.
pub open spec fn last_request(events: Seq<Event>) -> (Seq<char>, Seq<char>)
    decreases events.len(),
{
    if events.len() == 0 {
        (seq![], seq![])
    } else {
        match events.last() {
            Event::LoadRequested { path, env: Some(name) } => (name, path),
            Event::LoadRequested { path, env: None } => (seq![], path),
            _ => last_request(events.drop_last()),
        }
    }
}

/// The process that was spawned last in `events`, unless its end has been seen.
pub open spec fn running_pid(events: Seq<Event>) -> Option<u32>
    decreases events.len(),
{
    if events.len() == 0 {
        None
    } else {
        match events.last() {
            Event::Spawned(pid) => pid,
            Event::Exited(pid) => if pid == running_pid(events.drop_last()) {
                None
            } else {
                running_pid(events.drop_last())
            },
            _ => running_pid(events.drop_last()),
        }
    }
}

/// Whatever happens, the daemon keeps the environment and the model of the last request for later
/// starts, and the process that was spawned last, until its end is seen, for the next request to
/// stop.
pub proof fn daemon_keeps_last_request_and_running_process(events: Seq<Event>)
    ensures
        DaemonView::after(events).conda_env == last_request(events).0,
        DaemonView::after(events).model_path == last_request(events).1,
        DaemonView::after(events).child_pid == running_pid(events),
    decreases events.len(),
{
    if events.len() > 0 {
        daemon_keeps_last_request_and_running_process(events.drop_last());
    }
}

/// Where every process is started for a load that was announced, or after an error, the daemon
/// takes no input while no model is loaded.
pub proof fn no_input_while_not_loaded(events: Seq<Event>)
    requires
        forall|i: int|
            0 <= i < events.len() && (#[trigger] events[i]) is Spawned ==> !(DaemonView::after(
                events.take(i),
            ).status is NotLoaded),
    ensures
        DaemonView::after(events).status is NotLoaded ==> !DaemonView::after(events).input_open,
    decreases events.len(),
{
    if events.len() > 0 {
        let earlier = events.drop_last();
        assert forall|i: int| 0 <= i < earlier.len() && (
        #[trigger] earlier[i]) is Spawned implies !(DaemonView::after(
            earlier.take(i),
        ).status is NotLoaded) by {
            assert(earlier[i] == events[i]);
            assert(earlier.take(i) =~= events.take(i));
        }
        no_input_while_not_loaded(earlier);
        assert(events.take(events.len() - 1) =~= earlier);
    }
}

/// The input stays closed until a process is started.
pub proof fn input_opens_only_at_a_start(daemon: DaemonView, events: Seq<Event>)
    requires
        !daemon.input_open,
        forall|i: int| 0 <= i < events.len() ==> !((#[trigger] events[i]) is Spawned),
    ensures
        !daemon.run(events).input_open,
    decreases events.len(),
{
    if events.len() > 0 {
        let earlier = events.drop_last();
        assert forall|i: int| 0 <= i < earlier.len() implies !((
        #[trigger] earlier[i]) is Spawned) by {
            assert(earlier[i] == events[i]);
        }
        input_opens_only_at_a_start(daemon, earlier);
    }
}

/// After something could not be written to the daemon, whatever the user says is refused until the
/// daemon is started again.
pub proof fn chat_is_refused_after_a_failed_write(
    daemon: DaemonView,
    events: Seq<Event>,
    message: Seq<char>,
)
    requires
        forall|i: int| 0 <= i < events.len() ==> !((#[trigger] events[i]) is Spawned),
    ensures
        daemon.step(Event::WriteFailed).run(events).chat_answer(message) == Err::<
            Seq<char>,
            Seq<char>,
        >("LLM daemon is not running. Load a model first via the Co-Pilot sidebar."@),
{
    input_opens_only_at_a_start(daemon.step(Event::WriteFailed), events);
}

/// A title that begins with `LLM Ready` may go on with anything.
proof fn ready_title_may_go_on(rest: Seq<char>)
    ensures
        reports_ready("LLM Ready"@ + rest),
{
    assert(("LLM Ready"@ + rest).subrange(0, "LLM Ready"@.len() as int) =~= "LLM Ready"@);
}

/// A report titled `LLM Ready`, whatever the title goes on with, makes the daemon ready under the
/// name of the model file, or as `unknown` where there is none. The report is passed on with that
/// name as its model, and with its other members as they were. Nothing else of the daemon changes.
pub proof fn report_titled_llm_ready_makes_ready(
    daemon: DaemonView,
    j: Json,
    rest: Seq<char>,
    name: Seq<char>,
    key: Seq<char>,
)
    requires
        text_member(j, "title"@) == Some("LLM Ready"@ + rest),
        key != "model"@,
    ensures
        daemon.step(Event::Reported { title: Some("LLM Ready"@ + rest), file_name: Some(name) })
            == (DaemonView { status: StatusView::Ready(name), ..daemon }),
        daemon.step(Event::Reported { title: Some("LLM Ready"@ + rest), file_name: None })
            == (DaemonView { status: StatusView::Ready("unknown"@), ..daemon }),
        member(passed_on(j, Some(name)), "model"@) == Some(Json::Text(name)),
        member(passed_on(j, None), "model"@) == Some(Json::Text("unknown"@)),
        member(passed_on(j, Some(name)), key) == member(j, key),
        member(passed_on(j, None), key) == member(j, key),
{
    ready_title_may_go_on(rest);
}

/// A report titled `LLM Unavailable`, `Model Not Found` or `LLM Load Failed` makes that title the
/// daemon's error. A report under any other title that does not begin with `LLM Ready`, or under
/// none, changes nothing. None of them gets a model's name.
pub proof fn other_titles_make_an_error_or_change_nothing(
    daemon: DaemonView,
    j: Json,
    title: Seq<char>,
    name: Option<Seq<char>>,
)
    requires
        forall|rest: Seq<char>| title != #[trigger] ("LLM Ready"@ + rest),
    ensures
        ({
            let after = daemon.step(Event::Reported { title: Some(title), file_name: name });
            if title == "LLM Unavailable"@ || title == "Model Not Found"@ || title
                == "LLM Load Failed"@ {
                after == DaemonView { status: StatusView::Error(title), ..daemon }
            } else {
                after == daemon
            }
        }),
        daemon.step(Event::Reported { title: None, file_name: name }) == daemon,
        text_member(j, "title"@) == Some(title) ==> passed_on(j, name) == j,
        text_member(j, "title"@) is None ==> passed_on(j, name) == j,
{
    if reports_ready(title) {
        let n = "LLM Ready"@.len() as int;
        assert("LLM Ready"@ + title.skip(n) =~= title);
    }
}

/// The three titles that report a failure do not begin with `LLM Ready`, so that each is shown as
/// an error.
pub proof fn failures_are_shown_as_errors(daemon: DaemonView, name: Option<Seq<char>>)
    ensures
        daemon.step(
            Event::Reported { title: Some("LLM Unavailable"@), file_name: name },
        ).status.text() == "error:"@ + "LLM Unavailable"@,
        daemon.step(
            Event::Reported { title: Some("Model Not Found"@), file_name: name },
        ).status.text() == "error:"@ + "Model Not Found"@,
        daemon.step(
            Event::Reported { title: Some("LLM Load Failed"@), file_name: name },
        ).status.text() == "error:"@ + "LLM Load Failed"@,
{
    reveal_strlit("LLM Ready");
    reveal_strlit("LLM Unavailable");
    reveal_strlit("Model Not Found");
    reveal_strlit("LLM Load Failed");
    assert("LLM Ready"@[4] == 'R');
    assert("LLM Unavailable"@.subrange(0, 9)[4] == 'U');
    assert("Model Not Found"@.subrange(0, 9)[4] == 'l');
    assert("LLM Load Failed"@.subrange(0, 9)[4] == 'L');
}

/// Before anything has happened no model is loaded, no process runs, nothing can be said to it, and
/// neither a model nor an environment was asked for.
pub proof fn daemon_starts_with_nothing()
    ensures
        DaemonView::start().status is NotLoaded,
        DaemonView::start().child_pid is None,
        !DaemonView::start().stopping,
        !DaemonView::start().input_open,
        DaemonView::start().conda_env.len() == 0,
        DaemonView::start().model_path.len() == 0,
{
}

/// A request is kept as it was made: the path of the model and the name of the environment,
/// character for character, and no environment where none was named. The state and the process stay
/// as they are until the load begins.
pub proof fn request_is_kept_as_it_was_made(daemon: DaemonView, path: Seq<char>, env: Seq<char>)
    ensures
        ({
            let named = daemon.step(Event::LoadRequested { path, env: Some(env) });
            let bare = daemon.step(Event::LoadRequested { path, env: None });
            &&& named.model_path == path && bare.model_path == path
            &&& named.conda_env == env && bare.conda_env.len() == 0
            &&& named.status == daemon.status && bare.status == daemon.status
            &&& named.child_pid == daemon.child_pid && bare.child_pid == daemon.child_pid
            &&& named.input_open == daemon.input_open && bare.input_open == daemon.input_open
            &&& named.stopping == (daemon.child_pid is Some) && bare.stopping == named.stopping
        }),
{
}

/// When a load begins the daemon is loading and takes no input; what was asked for and the process
/// that runs stay known.
pub proof fn load_begins(daemon: DaemonView)
    ensures
        daemon.step(Event::LoadStarted) == (DaemonView {
            status: StatusView::Loading,
            input_open: false,
            ..daemon
        }),
        daemon.step(Event::LoadStarted).status.text() == "loading"@,
{
}

/// A process that was started is known by its number and takes input, and nothing else of the
/// daemon changes but that it is not asked to stop.
pub proof fn started_process_is_known(daemon: DaemonView, pid: Option<u32>)
    ensures
        ({
            let started = daemon.step(Event::Spawned(pid));
            &&& started.child_pid == pid
            &&& started.input_open
            &&& !started.stopping
            &&& started.status == daemon.status
            &&& started.conda_env == daemon.conda_env
            &&& started.model_path == daemon.model_path
        }),
{
}

/// What keeps the daemon from starting is shown as an error, and nothing else of the daemon changes:
/// the reason why there is no script, that there is no Python, or the reason why the program could
/// not be started, behind a word on `conda` where that was the program.
pub proof fn failed_starts_are_shown(daemon: DaemonView, reason: Seq<char>)
    ensures
        daemon.step(Event::NoResourceDir(reason)) == (DaemonView {
            status: StatusView::Error(reason),
            ..daemon
        }),
        daemon.step(Event::NoPython) == (DaemonView {
            status: StatusView::Error("Python not found"@),
            ..daemon
        }),
        daemon.step(Event::SpawnFailed(Program::SystemPython, reason)) == (DaemonView {
            status: StatusView::Error(reason),
            ..daemon
        }),
        daemon.step(Event::SpawnFailed(Program::Conda, reason)) == (DaemonView {
            status: StatusView::Error("conda spawn failed: "@ + reason),
            ..daemon
        }),
{
}

/// A write that failed closes the input, and nothing else of the daemon changes.
pub proof fn failed_write_closes_the_input(daemon: DaemonView)
    ensures
        daemon.step(Event::WriteFailed) == (DaemonView { input_open: false, ..daemon }),
{
}

/// The end of the process that runs is forgotten with all that hung on it, but what was asked for
/// is kept.
pub proof fn end_of_the_process_keeps_the_request(daemon: DaemonView)
    ensures
        ({
            let ended = daemon.step(Event::Exited(daemon.child_pid));
            &&& ended.conda_env == daemon.conda_env
            &&& ended.model_path == daemon.model_path
            &&& ended.child_pid is None
            &&& !ended.stopping
            &&& !ended.input_open
            &&& daemon.status is Ready ==> ended.status is NotLoaded
            &&& daemon.status is NotLoaded ==> ended.status is NotLoaded
            &&& daemon.status is Loading && daemon.stopping ==> ended.status is Loading
        }),
{
}

/// A change of the environment asks for the model that is loaded, by the path by which it was asked
/// for; where none is loaded it asks for none.
pub proof fn loaded_model_is_asked_for_again(daemon: DaemonView, name: Seq<char>)
    ensures
        daemon.status == StatusView::Ready(name) ==> daemon.kept_model() == daemon.model_path,
        !(daemon.status is Ready) ==> daemon.kept_model().len() == 0,
{
}

/// What the user says is written to the daemon as one message while the input is open, and is
/// refused while it is not, whatever the state is.
pub proof fn chat_goes_through_an_open_input(daemon: DaemonView, message: Seq<char>)
    ensures
        daemon.input_open ==> daemon.chat_answer(message) == Ok::<Seq<char>, Seq<char>>(
            rendered(user_chat(message)).push('\n'),
        ),
        !daemon.input_open ==> daemon.chat_answer(message) == Err::<Seq<char>, Seq<char>>(
            "LLM daemon is not running. Load a model first via the Co-Pilot sidebar."@,
        ),
{
}

/// A daemon that reports itself ready, under whatever title begins with `LLM Ready`, is shown as
/// `ready:` and the name of its model's file, in whatever directory that is; where it looked for a
/// model itself it is shown as `ready:unknown`. `name` and `none` are the file names of the two
/// paths.
#[verifier::rlimit(50)]
pub proof fn ready_daemon_is_shown_with_its_file(
    daemon: DaemonView,
    rest: Seq<char>,
    directory: Seq<char>,
    file: Seq<char>,
    name: Option<Seq<char>>,
    none: Option<Seq<char>>,
)
    requires
        directory.len() == 0 || directory.last() == '/',
        file.len() > 0,
        forall|i: int| 0 <= i < file.len() ==> (#[trigger] file[i]) != '/' && file[i] != '\\',
        file != seq!['.'],
        file != seq!['.', '.'],
        (directory + file).len() < 2 || ((directory + file)[0] != '/' && (directory + file)[0]
            != '\\') || ((directory + file)[1] != '/' && (directory + file)[1] != '\\'),
        (directory + file).len() < 2 || (directory + file)[1] != ':' || file.len() < 2 || file[1]
            != ':' || !('a' <= file[0] <= 'z' || 'A' <= file[0] <= 'Z') || !('a' <= (directory
            + file)[0] <= 'z' || 'A' <= (directory + file)[0] <= 'Z'),
        fits_path(name, directory + file),
        fits_path(none, seq![]),
    ensures
        daemon.step(
            Event::Reported { title: Some("LLM Ready"@ + rest), file_name: name },
        ).status.text() == "ready:"@ + file,
        daemon.step(
            Event::Reported { title: Some("LLM Ready"@ + rest), file_name: none },
        ).status.text() == "ready:"@ + "unknown"@,
{
    assert(name == Some(file) && none is None) by {
        name_follows_the_last_slash(directory, file, name, none);
    }
    ready_title_may_go_on(rest);
    ready_under_the_shown_name(daemon, "LLM Ready"@ + rest, name);
    ready_under_the_shown_name(daemon, "LLM Ready"@ + rest, none);
}

} // verus!
