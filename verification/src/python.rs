//! Finding and running Python: which commands are tried, in which order, and what a run comes to.
use crate::text::{
    blank, decimal, followed_by, is_blank, lossy, lossy_text, optional_text, read_faithfully,
    result_text, signed_decimal, signed_decimal_has_a_sign_where_negative, signed_decimal_text,
    white,
};
use vstd::prelude::*;

verus! {

/// The argument with which a command is asked whether it starts Python.
pub const PROBE_ARGUMENT: &'static str = "--version";

/// How many commands may start Python.
pub const COMMAND_COUNT: usize = 3;

/// The commands that may start Python, in the order in which they are tried.
pub open spec fn commands() -> Seq<Seq<char>> {
    seq!["python"@, "python3"@, "py"@]
}

/// The command that is tried after `tried` others.
pub fn command(tried: usize) -> (name: Option<&'static str>)
    ensures
        (match name {
            Some(s) => tried < COMMAND_COUNT && s@ == commands()[tried as int],
            None => tried >= COMMAND_COUNT,
        }),
{
    match tried {
        0 => Some("python"),
        1 => Some("python3"),
        2 => Some("py"),
        _ => None,
    }
}

/// What became of one attempt to run a command.
pub enum Attempt {
    /// The command ran to its end.
    Finished { success: bool, code: Option<i32>, stdout: Vec<u8>, stderr: Vec<u8> },
    /// The command could not be started, for the reason given.
    NotStarted(String),
}

/// The verdict on a command that ran to its end: its output where it succeeded; else what it
/// wrote to its error stream, or to its output, or else its exit code.
pub open spec fn output_verdict(
    success: bool,
    code: Option<i32>,
    stdout: Seq<char>,
    stderr: Seq<char>,
) -> Result<Seq<char>, Seq<char>> {
    if success {
        Ok(stdout)
    } else if !blank(stderr) {
        Err(stderr)
    } else if !blank(stdout) {
        Err(stdout)
    } else {
        Err(
            "Exited with code: "@ + signed_decimal(
                match code {
                    Some(c) => c as int,
                    None => -1,
                },
            ),
        )
    }
}

/// The verdict on an attempt, its output read as text.
pub open spec fn verdict(attempt: Attempt) -> Result<Seq<char>, Seq<char>> {
    match attempt {
        Attempt::Finished { success, code, stdout, stderr } => output_verdict(
            success,
            code,
            lossy(stdout@),
            lossy(stderr@),
        ),
        Attempt::NotStarted(reason) => Err(reason@),
    }
}

/// Whether what a command wrote is read as the text that it encodes, where it is valid UTF-8.
pub open spec fn attempt_read_faithfully(attempt: Attempt) -> bool {
    match attempt {
        Attempt::Finished { stdout, stderr, .. } => read_faithfully(stdout@) && read_faithfully(
            stderr@,
        ),
        Attempt::NotStarted(_) => true,
    }
}

/// Judges a command that ran to its end.
pub fn judge_output(success: bool, code: Option<i32>, stdout: String, stderr: String) -> (result:
    Result<String, String>)
    ensures
        result_text(result) == output_verdict(success, code, stdout@, stderr@),
        success ==> (result matches Ok(output) && output@ == stdout@),
        !success ==> result is Err,
{
    if success {
        Ok(stdout)
    } else if !is_blank(stderr.as_str()) {
        Err(stderr)
    } else if !is_blank(stdout.as_str()) {
        Err(stdout)
    } else {
        let number: i32 = match code {
            Some(c) => c,
            None => -1,
        };
        Err(followed_by("Exited with code: ", signed_decimal_text(number).as_str()))
    }
}

/// Judges one attempt.
pub fn judge(attempt: Attempt) -> (result: Result<String, String>)
    ensures
        result_text(result) == verdict(attempt),
        attempt_read_faithfully(attempt),
        result is Ok <==> (attempt matches Attempt::Finished { success, .. } && success),
{
    match attempt {
        Attempt::Finished { success, code, stdout, stderr } => judge_output(
            success,
            code,
            lossy_text(stdout.as_slice()),
            lossy_text(stderr.as_slice()),
        ),
        Attempt::NotStarted(reason) => Err(reason),
    }
}

/// How far a run of a script has come.
pub struct RunView {
    pub tried: nat,
    pub output: Option<Seq<char>>,
    pub last_error: Seq<char>,
}

impl RunView {
    /// Before the first attempt.
    pub open spec fn start() -> RunView {
        RunView { tried: 0, output: None, last_error: seq![] }
    }

    /// Whether another command is to be tried.
    pub open spec fn open(self) -> bool {
        self.output is None && self.tried < COMMAND_COUNT
    }

    /// After one more attempt with the verdict `result`.
    pub open spec fn step(self, result: Result<Seq<char>, Seq<char>>) -> RunView {
        match result {
            Ok(output) => RunView { tried: self.tried + 1, output: Some(output), ..self },
            Err(error) => RunView { tried: self.tried + 1, last_error: error, ..self },
        }
    }

    /// After attempts with the verdicts `results`.
    pub open spec fn after(results: Seq<Result<Seq<char>, Seq<char>>>) -> RunView
        decreases results.len(),
    {
        if results.len() == 0 {
            RunView::start()
        } else {
            RunView::after(results.drop_last()).step(results.last())
        }
    }

    /// What the run comes to if it ends here.
    pub open spec fn outcome(self) -> Result<Seq<char>, Seq<char>> {
        match self.output {
            Some(output) => Ok(output),
            None => Err(self.last_error),
        }
    }
}

/// One run of a Python script: each command is tried in turn until one succeeds.
pub struct PythonRun {
    tried: usize,
    output: Option<String>,
    last_error: String,
}

impl View for PythonRun {
    type V = RunView;

    closed spec fn view(&self) -> RunView {
        RunView {
            tried: self.tried as nat,
            output: optional_text(self.output),
            last_error: self.last_error@,
        }
    }
}

impl PythonRun {
    /// A run before its first attempt.
    pub fn new() -> (run: PythonRun)
        ensures
            run@ == RunView::start(),
    {
        PythonRun { tried: 0, output: None, last_error: String::new() }
    }

    /// The command to try next, as long as none has succeeded and one is left.
    pub fn next_command(&self) -> (name: Option<&'static str>)
        ensures
            (match name {
                Some(s) => self@.open() && s@ == commands()[self@.tried as int],
                None => !self@.open(),
            }),
    {
        if self.output.is_some() {
            None
        } else {
            command(self.tried)
        }
    }

    /// Takes note of what became of the command that was to be tried.
    pub fn record(&mut self, attempt: Attempt)
        requires
            old(self)@.open(),
        ensures
            final(self)@ == old(self)@.step(verdict(attempt)),
            attempt_read_faithfully(attempt),
    {
        match judge(attempt) {
            Ok(output) => {
                self.output = Some(output);
            },
            Err(error) => {
                self.last_error = error;
            },
        }
        self.tried = self.tried + 1;
    }

    /// What the run comes to: the output of the command that succeeded, or the last error.
    pub fn finish(self) -> (result: Result<String, String>)
        ensures
            result_text(result) == self@.outcome(),
    {
        match self.output {
            Some(output) => Ok(output),
            None => Err(self.last_error),
        }
    }
}

/// A run stops at the first success, tries no more than the known commands, and comes to the
/// verdict on its last attempt: the output of the first success, or else the last error. With no
/// attempt at all the error is empty.
pub proof fn run_comes_to_its_last_verdict(results: Seq<Result<Seq<char>, Seq<char>>>)
    requires
        forall|i: int| 0 <= i < results.len() - 1 ==> (#[trigger] results[i]) is Err,
    ensures
        RunView::after(results).tried == results.len(),
        RunView::after(results).open() <==> results.len() < COMMAND_COUNT && (results.len() == 0
            || results.last() is Err),
        RunView::after(results).outcome() == if results.len() == 0 {
            Err(seq![])
        } else {
            results.last()
        },
    decreases results.len(),
{
    if results.len() > 0 {
        let earlier = results.drop_last();
        assert forall|i: int| 0 <= i < earlier.len() implies (#[trigger] earlier[i]) is Err by {
            assert(earlier[i] == results[i]);
        }
        run_comes_to_its_last_verdict(earlier);
    }
}

/// How far a search for a Python command has come.
pub struct SearchView {
    pub tried: nat,
    pub found: bool,
}

impl SearchView {
    /// Before the first attempt.
    pub open spec fn start() -> SearchView {
        SearchView { tried: 0, found: false }
    }

    /// Whether another command is to be tried.
    pub open spec fn open(self) -> bool {
        !self.found && self.tried < COMMAND_COUNT
    }

    /// After one more attempt, which worked or did not.
    pub open spec fn step(self, works: bool) -> SearchView {
        SearchView { tried: self.tried + 1, found: works }
    }

    /// After attempts of which each worked or did not.
    pub open spec fn after(results: Seq<bool>) -> SearchView
        decreases results.len(),
    {
        if results.len() == 0 {
            SearchView::start()
        } else {
            SearchView::after(results.drop_last()).step(results.last())
        }
    }

    /// The command that the search has found.
    pub open spec fn outcome(self) -> Option<Seq<char>> {
        if self.found {
            Some(commands()[self.tried - 1])
        } else {
            None
        }
    }
}

/// A search for a command that starts Python.
pub struct PythonSearch {
    tried: usize,
    found: bool,
}

impl View for PythonSearch {
    type V = SearchView;

    closed spec fn view(&self) -> SearchView {
        SearchView { tried: self.tried as nat, found: self.found }
    }
}

impl PythonSearch {
    /// No more commands are tried than there are, and what is found is one of them.
    #[verifier::type_invariant]
    spec fn well_formed(self) -> bool {
        self.tried <= COMMAND_COUNT && (self.found ==> self.tried > 0)
    }

    /// A search before its first attempt.
    pub fn new() -> (search: PythonSearch)
        ensures
            search@ == SearchView::start(),
    {
        PythonSearch { tried: 0, found: false }
    }

    /// The command to ask for its version next, as long as none has worked and one is left.
    pub fn next_command(&self) -> (name: Option<&'static str>)
        ensures
            (match name {
                Some(s) => self@.open() && s@ == commands()[self@.tried as int],
                None => !self@.open(),
            }),
    {
        if self.found {
            None
        } else {
            command(self.tried)
        }
    }

    /// Takes note of the command that was to be tried: whether it exited with success, or nothing
    /// where it could not be started.
    pub fn record(&mut self, success: Option<bool>)
        requires
            old(self)@.open(),
        ensures
            final(self)@ == old(self)@.step(success == Some(true)),
    {
        let works = match success {
            Some(yes) => yes,
            None => false,
        };
        *self = PythonSearch { tried: self.tried + 1, found: works };
    }

    /// The command that worked.
    pub fn finish(&self) -> (name: Option<&'static str>)
        ensures
            (match name {
                Some(s) => self@.outcome() == Some(s@),
                None => self@.outcome() is None,
            }),
    {
        proof {
            use_type_invariant(self);
        }
        if self.found {
            command(self.tried - 1)
        } else {
            None
        }
    }
}

/// A search comes to the first command that works, and to none where none of them does.
pub proof fn search_finds_the_first_that_works(results: Seq<bool>)
    requires
        results.len() <= COMMAND_COUNT,
        forall|i: int| 0 <= i < results.len() - 1 ==> !(#[trigger] results[i]),
    ensures
        SearchView::after(results).tried == results.len(),
        SearchView::after(results).open() <==> results.len() < COMMAND_COUNT && (results.len() == 0
            || !results.last()),
        SearchView::after(results).outcome() == if results.len() > 0 && results.last() {
            Some(commands()[results.len() - 1])
        } else {
            None
        },
    decreases results.len(),
{
    if results.len() > 0 {
        let earlier = results.drop_last();
        assert forall|i: int| 0 <= i < earlier.len() implies !(#[trigger] earlier[i]) by {
            assert(earlier[i] == results[i]);
        }
        search_finds_the_first_that_works(earlier);
    }
}

/// A search and a run try the same commands in the same order: after as many failures each tries
/// the same command, or none.
pub proof fn search_and_run_try_the_same_commands(
    verdicts: Seq<Result<Seq<char>, Seq<char>>>,
    results: Seq<bool>,
)
    requires
        verdicts.len() == results.len(),
        forall|i: int| 0 <= i < verdicts.len() ==> (#[trigger] verdicts[i]) is Err,
        forall|i: int| 0 <= i < results.len() ==> !(#[trigger] results[i]),
    ensures
        RunView::after(verdicts).tried == SearchView::after(results).tried,
        RunView::after(verdicts).open() == SearchView::after(results).open(),
    decreases results.len(),
{
    if results.len() > 0 {
        assert forall|i: int| 0 <= i < results.len() - 1 implies (
        #[trigger] verdicts.drop_last()[i]) is Err && !results.drop_last()[i] by {
            assert(verdicts.drop_last()[i] == verdicts[i]);
            assert(results.drop_last()[i] == results[i]);
        }
        assert forall|i: int| 0 <= i < results.drop_last().len() implies !(
        #[trigger] results.drop_last()[i]) by {
            assert(results.drop_last()[i] == results[i]);
        }
        search_and_run_try_the_same_commands(verdicts.drop_last(), results.drop_last());
    }
    assert(RunView::after(verdicts).output is None) by {
        run_comes_to_its_last_verdict(verdicts);
    }
    assert(!SearchView::after(results).found);
}

/// The commands are `python`, `python3` and `py`, in that order, and there is no other.
pub proof fn commands_are_tried_in_this_order()
    ensures
        commands().len() == 3,
        COMMAND_COUNT == 3,
        commands()[0] == "python"@,
        commands()[1] == "python3"@,
        commands()[2] == "py"@,
{
}

/// A command that finishes with success gives what it wrote to its output, all of it, whatever its
/// exit code is and whatever it wrote to its error stream.
pub proof fn success_gives_the_output(
    code: Option<i32>,
    stdout: Vec<u8>,
    stderr: Vec<u8>,
    written: Seq<char>,
    warned: Seq<char>,
)
    ensures
        verdict(Attempt::Finished { success: true, code, stdout, stderr }) == Ok::<
            Seq<char>,
            Seq<char>,
        >(lossy(stdout@)),
        output_verdict(true, code, written, warned) == Ok::<Seq<char>, Seq<char>>(written),
{
}

/// A command that fails gives all that it wrote to its error stream, where a character there is no
/// white space, whatever else it wrote.
pub proof fn failure_gives_the_error_stream(
    code: Option<i32>,
    stdout: Vec<u8>,
    stderr: Vec<u8>,
    i: int,
)
    requires
        0 <= i < lossy(stderr@).len(),
        !white(lossy(stderr@)[i]),
    ensures
        verdict(Attempt::Finished { success: false, code, stdout, stderr }) == Err::<
            Seq<char>,
            Seq<char>,
        >(lossy(stderr@)),
{
    assert(!white(lossy(stderr@)[i]));
}

/// A command that fails with nothing but white space on its error stream gives all that it wrote to
/// its output, where a character there is no white space.
pub proof fn silent_failure_gives_the_output(
    code: Option<i32>,
    stdout: Vec<u8>,
    stderr: Vec<u8>,
    i: int,
)
    requires
        forall|k: int| 0 <= k < lossy(stderr@).len() ==> white(#[trigger] lossy(stderr@)[k]),
        0 <= i < lossy(stdout@).len(),
        !white(lossy(stdout@)[i]),
    ensures
        verdict(Attempt::Finished { success: false, code, stdout, stderr }) == Err::<
            Seq<char>,
            Seq<char>,
        >(lossy(stdout@)),
{
    assert(!white(lossy(stdout@)[i]));
}

/// A command that fails and writes nothing but white space gives its exit code: as a numeral, with a
/// minus sign where it is negative, and as minus one where there is none.
pub proof fn mute_failure_gives_the_exit_code(
    code: Option<i32>,
    stdout: Vec<u8>,
    stderr: Vec<u8>,
)
    requires
        forall|k: int| 0 <= k < lossy(stderr@).len() ==> white(#[trigger] lossy(stderr@)[k]),
        forall|k: int| 0 <= k < lossy(stdout@).len() ==> white(#[trigger] lossy(stdout@)[k]),
    ensures
        verdict(Attempt::Finished { success: false, code, stdout, stderr }) == Err::<
            Seq<char>,
            Seq<char>,
        >(
            "Exited with code: "@ + match code {
                Some(c) => if c >= 0 {
                    decimal(c as nat)
                } else {
                    seq!['-'] + decimal((-c) as nat)
                },
                None => seq!['-', '1'],
            },
        ),
{
    let number: int = match code {
        Some(c) => c as int,
        None => -1,
    };
    if number < 0 {
        signed_decimal_has_a_sign_where_negative((-number) as nat);
    } else {
        signed_decimal_has_a_sign_where_negative(number as nat);
    }
    if code is None {
        assert(decimal(1) =~= seq!['1']);
        assert(seq!['-'] + decimal(1) =~= seq!['-', '1']);
    }
}

/// A command that cannot be started gives the reason, all of it.
pub proof fn attempt_that_is_not_started_gives_the_reason(reason: String)
    ensures
        verdict(Attempt::NotStarted(reason)) == Err::<Seq<char>, Seq<char>>(reason@),
{
}

/// A run is over after a success, and comes to that output whatever failed before; a failure leaves
/// the run open for the next command, and is forgotten after the next.
pub proof fn attempt_decides_the_run(run: RunView, output: Seq<char>, error: Seq<char>)
    requires
        run.open(),
    ensures
        run.step(Ok(output)).outcome() == Ok::<Seq<char>, Seq<char>>(output),
        !run.step(Ok(output)).open(),
        run.step(Err(error)).outcome() == Err::<Seq<char>, Seq<char>>(error),
        run.step(Err(error)).open() <==> run.tried + 1 < 3,
        run.step(Err(error)).tried == run.tried + 1,
        RunView::start().open(),
        RunView::start().tried == 0,
{
}

/// A search is over once a command works, and names that command; one that does not work leaves the
/// search open for the next.
pub proof fn attempt_decides_the_search(search: SearchView)
    requires
        search.open(),
    ensures
        search.step(true).outcome() == Some(commands()[search.tried as int]),
        !search.step(true).open(),
        search.step(false).outcome() is None,
        search.step(false).open() <==> search.tried + 1 < 3,
        search.step(false).tried == search.tried + 1,
        SearchView::start().open(),
        SearchView::start().tried == 0,
{
}

/// A command is asked for its version to find out whether it works.
pub proof fn commands_are_asked_for_their_version()
    ensures
        PROBE_ARGUMENT@ == "--version"@,
{
}

} // verus!
