//! Loading a model: what is stopped, what is announced and what is started.
use crate::json::{contents, empty_object, insert, member, text_member, text_value, Json};
use crate::model::{file_name, fits_path};
use crate::text::{
    decimal, decimal_stands_for_its_number, decimal_text, followed_by, numeral_value, optional_text,
    texts,
};
use vstd::prelude::*;

verus! {

/// A request to start the daemon, as data.
pub struct LoadView {
    /// The process to stop before.
    pub kill: Option<u32>,
    /// The model file; empty where the daemon is to look for one itself.
    pub model_path: Seq<char>,
    /// The conda environment; empty for the system's Python.
    pub conda_env: Seq<char>,
}

/// A request to start the daemon.
pub struct Load {
    /// The process to stop before.
    pub kill: Option<u32>,
    /// The model file; empty where the daemon is to look for one itself.
    pub model_path: String,
    /// The conda environment; empty for the system's Python.
    pub conda_env: String,
}

impl View for Load {
    type V = LoadView;

    open spec fn view(&self) -> LoadView {
        LoadView {
            kill: self.kill,
            model_path: self.model_path@,
            conda_env: self.conda_env@,
        }
    }
}

/// What starts the daemon's script.
#[derive(Clone, Copy, Debug, PartialEq, Eq, Structural)]
pub enum Program {
    /// The `conda` command.
    Conda,
    /// The first Python command that works.
    SystemPython,
}

/// A command line that starts the daemon, as data.
pub struct LaunchView {
    pub program: Program,
    pub args: Seq<Seq<char>>,
}

/// A command line that starts the daemon.
pub struct Launch {
    pub program: Program,
    pub args: Vec<String>,
}

impl View for Launch {
    type V = LaunchView;

    open spec fn view(&self) -> LaunchView {
        LaunchView { program: self.program, args: texts(self.args@) }
    }
}

/// The daemon's script and its arguments.
pub open spec fn script_args(script: Seq<char>, model_path: Seq<char>) -> Seq<Seq<char>> {
    if model_path.len() == 0 {
        seq![script]
    } else {
        seq![script, "--model"@, model_path]
    }
}

/// The arguments by which `conda` runs Python in an environment.
pub open spec fn conda_args(conda_env: Seq<char>) -> Seq<Seq<char>> {
    seq!["run"@, "-n"@, conda_env, "--no-capture-output"@, "python"@]
}

/// The command line that starts the script for a load: through `conda` where the load names an
/// environment, else directly.
pub open spec fn launched(load: LoadView, script: Seq<char>) -> LaunchView {
    if load.conda_env.len() == 0 {
        LaunchView { program: Program::SystemPython, args: script_args(script, load.model_path) }
    } else {
        LaunchView {
            program: Program::Conda,
            args: conda_args(load.conda_env) + script_args(script, load.model_path),
        }
    }
}

/// What a model is called while it is loaded.
pub open spec fn shown_model(path: Seq<char>, name: Option<Seq<char>>) -> Seq<char> {
    if path.len() == 0 {
        "auto-discover"@
    } else {
        match name {
            Some(n) => n,
            None => "model"@,
        }
    }
}

/// What an environment is called while a model is loaded.
pub open spec fn shown_env(conda_env: Seq<char>) -> Seq<char> {
    if conda_env.len() == 0 {
        "system Python"@
    } else {
        "conda:"@ + conda_env
    }
}

/// The announcement of a load, for a model file of the given name.
pub open spec fn announced(load: LoadView, name: Option<Seq<char>>) -> Seq<char> {
    "Loading "@ + shown_model(load.model_path, name) + " via "@ + shown_env(load.conda_env)
}

/// An insight with the tag `advice`.
pub open spec fn advice(title: Seq<char>, body: Seq<char>) -> Json {
    Json::Object(
        Map::empty().insert("tag"@, Json::Text("advice"@)).insert("title"@, Json::Text(title)).insert(
            "body"@,
            Json::Text(body),
        ),
    )
}

impl Load {
    /// Announces the load of a model file of the given name.
    pub fn announcement(&self, name: Option<String>) -> (body: String)
        ensures
            body@ == announced(self@, optional_text(name)),
    {
        let model = if self.model_path.as_str().is_empty() {
            "auto-discover".to_owned()
        } else {
            match name {
                Some(n) => n,
                None => "model".to_owned(),
            }
        };
        let env = if self.conda_env.as_str().is_empty() {
            "system Python".to_owned()
        } else {
            followed_by("conda:", self.conda_env.as_str())
        };
        let mut body = followed_by("Loading ", model.as_str());
        body.append(" via ");
        body.append(env.as_str());
        body
    }

    /// The insight that is shown when the load begins.
    pub fn insight(&self) -> (value: serde_json::Value)
        ensures
            exists|name: Option<Seq<char>>| #[trigger]
                fits_path(name, self@.model_path) && contents(value) == advice(
                    "Loading Model\u{2026}"@,
                    announced(self@, name),
                ),
    {
        let name = file_name(self.model_path.as_str());
        let ghost found = optional_text(name);
        let body = self.announcement(name);
        let mut value = empty_object();
        insert(&mut value, "tag".to_owned(), text_value("advice".to_owned()));
        insert(&mut value, "title".to_owned(), text_value("Loading Model\u{2026}".to_owned()));
        insert(&mut value, "body".to_owned(), text_value(body));
        assert(fits_path(found, self@.model_path));
        value
    }

    /// The command line that starts the daemon's script.
    pub fn launch(&self, script: &str) -> (launch: Launch)
        ensures
            launch@ == launched(self@, script@),
            self.conda_env@.len() > 0 ==> {
                &&& launch.program == Program::Conda
                &&& launch.args@.len() == 6 + if self.model_path@.len() > 0 {
                    2int
                } else {
                    0
                }
                &&& launch.args@[0]@ == "run"@
                &&& launch.args@[1]@ == "-n"@
                &&& launch.args@[2]@ == self.conda_env@
                &&& launch.args@[3]@ == "--no-capture-output"@
                &&& launch.args@[4]@ == "python"@
                &&& launch.args@[5]@ == script@
            },
            self.conda_env@.len() == 0 ==> {
                &&& launch.program == Program::SystemPython
                &&& launch.args@.len() == 1 + if self.model_path@.len() > 0 {
                    2int
                } else {
                    0
                }
                &&& launch.args@[0]@ == script@
            },
            self.model_path@.len() > 0 ==> {
                &&& launch.args@[launch.args@.len() - 2]@ == "--model"@
                &&& launch.args@[launch.args@.len() - 1]@ == self.model_path@
            },
    {
        let mut args: Vec<String> = Vec::new();
        let mut program = Program::SystemPython;
        if !self.conda_env.as_str().is_empty() {
            program = Program::Conda;
            args.push("run".to_owned());
            args.push("-n".to_owned());
            args.push(self.conda_env.clone());
            args.push("--no-capture-output".to_owned());
            args.push("python".to_owned());
        }
        args.push(script.to_owned());
        if !self.model_path.as_str().is_empty() {
            args.push("--model".to_owned());
            args.push(self.model_path.clone());
        }
        assert(texts(args@) =~= launched(self@, script@).args);
        Launch { program, args }
    }
}

/// The program that stops a process, and its arguments.
pub open spec fn stop_args(pid: u32, windows: bool) -> (Seq<char>, Seq<Seq<char>>) {
    if windows {
        ("taskkill"@, seq!["/PID"@, decimal(pid as nat), "/F"@])
    } else {
        ("kill"@, seq!["-9"@, decimal(pid as nat)])
    }
}

/// The command line that stops a process, on Windows or elsewhere.
pub fn stop_command(pid: u32, windows: bool) -> (command: (&'static str, Vec<String>))
    ensures
        (command.0@, texts(command.1@)) == stop_args(pid, windows),
{
    let mut args: Vec<String> = Vec::new();
    let number = decimal_text(pid as u64);
    if windows {
        args.push("/PID".to_owned());
        args.push(number);
        args.push("/F".to_owned());
        assert(texts(args@) =~= stop_args(pid, windows).1);
        ("taskkill", args)
    } else {
        args.push("-9".to_owned());
        args.push(number);
        assert(texts(args@) =~= stop_args(pid, windows).1);
        ("kill", args)
    }
}

/// A load has the process, the model file and the environment that it was made with.
pub proof fn load_is_taken_as_it_is(load: Load)
    ensures
        load@.kill == load.kill,
        load@.model_path == load.model_path@,
        load@.conda_env == load.conda_env@,
{
}

/// A command line has the program and the arguments that it was made with.
pub proof fn launch_is_taken_as_it_is(launch: Launch, i: int)
    requires
        0 <= i < launch.args@.len(),
    ensures
        launch@.program == launch.program,
        launch@.args.len() == launch.args@.len(),
        launch@.args[i] == launch.args@[i]@,
{
}

/// Where a load names an environment, `conda` runs Python in that environment, character for
/// character, and Python is given the script.
pub proof fn named_environment_is_used(load: LoadView, script: Seq<char>)
    requires
        load.conda_env.len() > 0,
    ensures
        launched(load, script).program == Program::Conda,
        launched(load, script).args.len() >= 6,
        launched(load, script).args[0] == "run"@,
        launched(load, script).args[1] == "-n"@,
        launched(load, script).args[2] == load.conda_env,
        launched(load, script).args[3] == "--no-capture-output"@,
        launched(load, script).args[4] == "python"@,
        launched(load, script).args[5] == script,
{
}

/// Where a load names no environment, the system's Python is given the script, and `conda` has no
/// part in it.
pub proof fn system_python_is_used_without_an_environment(load: LoadView, script: Seq<char>)
    requires
        load.conda_env.len() == 0,
    ensures
        launched(load, script).program == Program::SystemPython,
        launched(load, script).args.len() >= 1,
        launched(load, script).args[0] == script,
{
}

/// Through `conda` the script is started with the arguments with which it is started directly.
pub proof fn environment_changes_nothing_for_the_script(
    load: LoadView,
    direct: LoadView,
    script: Seq<char>,
)
    requires
        load.conda_env.len() > 0,
        direct.conda_env.len() == 0,
        direct.model_path == load.model_path,
    ensures
        launched(load, script).args.skip(5) == launched(direct, script).args,
{
    assert(launched(load, script).args.skip(5) =~= launched(direct, script).args);
}

/// A model that a load names is given to the script by its path, character for character, as the
/// last argument; without one the script itself is the last.
pub proof fn named_model_is_given_to_the_script(load: LoadView, script: Seq<char>)
    ensures
        ({
            let args = launched(load, script).args;
            let before = if load.conda_env.len() > 0 {
                5int
            } else {
                0
            };
            if load.model_path.len() > 0 {
                &&& args.len() == before + 3
                &&& args[before] == script
                &&& args[before + 1] == "--model"@
                &&& args[before + 2] == load.model_path
            } else {
                &&& args.len() == before + 1
                &&& args[before] == script
            }
        }),
{
}

/// A load announces its model by the name of the file, or as `model` where the path has no file
/// name; without a model it says that one is looked for.
pub proof fn load_announces_its_model(load: LoadView, name: Seq<char>)
    ensures
        ({
            let env = if load.conda_env.len() > 0 {
                "conda:"@ + load.conda_env
            } else {
                "system Python"@
            };
            &&& load.model_path.len() > 0 ==> announced(load, Some(name)) == "Loading "@ + name
                + " via "@ + env
            &&& load.model_path.len() > 0 ==> announced(load, None) == "Loading "@ + "model"@
                + " via "@ + env
            &&& load.model_path.len() == 0 ==> announced(load, Some(name)) == "Loading "@
                + "auto-discover"@ + " via "@ + env
            &&& load.model_path.len() == 0 ==> announced(load, None) == "Loading "@
                + "auto-discover"@ + " via "@ + env
        }),
{
}

/// The members of an insight with the tag `advice`: its tag, its title, its body, and no other.
pub proof fn advice_members(title: Seq<char>, body: Seq<char>, key: Seq<char>)
    ensures
        text_member(advice(title, body), "tag"@) == Some("advice"@),
        text_member(advice(title, body), "title"@) == Some(title),
        text_member(advice(title, body), "body"@) == Some(body),
        member(advice(title, body), key) is Some ==> key == "tag"@ || key == "title"@ || key
            == "body"@,
{
    reveal_strlit("tag");
    reveal_strlit("title");
    reveal_strlit("body");
    assert("tag"@.len() == 3 && "title"@.len() == 5 && "body"@.len() == 4);
}

/// A process is stopped by force and by its number: with `taskkill` on Windows, with `kill`
/// elsewhere.
pub proof fn process_is_stopped_by_its_number(pid: u32)
    ensures
        stop_args(pid, true).0 == "taskkill"@,
        stop_args(pid, true).1.len() == 3,
        stop_args(pid, true).1[0] == "/PID"@,
        numeral_value(stop_args(pid, true).1[1]) == pid,
        stop_args(pid, true).1[2] == "/F"@,
        stop_args(pid, false).0 == "kill"@,
        stop_args(pid, false).1.len() == 2,
        stop_args(pid, false).1[0] == "-9"@,
        numeral_value(stop_args(pid, false).1[1]) == pid,
        stop_args(pid, false).1[1] == stop_args(pid, true).1[1],
        stop_args(pid, true).1[1] == decimal(pid as nat),
{
    decimal_stands_for_its_number(pid as nat);
}

} // verus!
