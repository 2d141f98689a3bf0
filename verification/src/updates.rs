//! The rounds in which a process of the daemon is told the state of the system.
use crate::commands::{script_argument, without_mark};
use crate::daemon::{DaemonView, Event, LlmDaemon};
use crate::json::{contents, member, parsed, reads_back, rendered, Json};
use crate::messages::framed;
use crate::metrics::{
    checked_system_update_line, measurement, metrics_after, ram_used_gb, reported_ram,
    system_report, system_update, system_update_members, TrainingMetrics, UPDATE_SECONDS,
};
use crate::text::{lossy, read_faithfully, result_text};
use vstd::prelude::*;

verus! {

/// Where a round stands, as data.
pub enum RoundView {
    /// Before the first tick, which comes at once.
    Starting,
    /// Between two rounds.
    Waiting,
    /// The script that describes the system is looked for.
    Locating,
    /// A Python command for that script is looked for.
    Searching(Seq<char>),
    /// The script is run.
    Reporting,
    /// The figures are gathered; the script told the used memory or did not.
    Measuring(bool),
    /// The update is written.
    Writing,
    /// The process is no longer the daemon's.
    Ended,
}

/// What came of the last step, as data.
pub enum OutcomeView {
    /// It is time for a round.
    Tick,
    /// The path of the script, or the reason why there is none.
    Located(Result<Seq<char>, Seq<char>>),
    /// The Python command that works.
    Found(Option<Seq<char>>),
    /// Whether the script succeeded and what it wrote; nothing where it could not be started.
    Ran(Option<(bool, Seq<u8>)>),
    /// The used memory in megabytes, and the latest metrics.
    Measured { ram_mb: Option<u64>, epoch: u32, loss: Json, accuracy: Json },
    /// Whether the update was written without a failure.
    Written(bool),
}

/// What is to be done next, as data.
pub enum ActionView {
    Sleep,
    Stop,
    Locate,
    Search,
    Run { python: Seq<char>, script: Seq<char> },
    Measure(Option<Json>),
    Write(Seq<char>),
}

/// The report in what a script wrote; nothing where it failed or wrote no JSON.
pub open spec fn report_in(ran: Option<(bool, Seq<u8>)>) -> Option<Json> {
    match ran {
        Some((success, stdout)) => if success {
            parsed(lossy(stdout))
        } else {
            None
        },
        None => None,
    }
}

/// The used memory that an update tells: none where the report does not tell it.
pub open spec fn told_ram(told: bool, ram_mb: Option<u64>) -> u64 {
    if told {
        match ram_mb {
            Some(mb) => mb,
            None => 0,
        }
    } else {
        0
    }
}

/// The rounds for one process, as data.
pub struct UpdatesView {
    pub pid: Option<u32>,
    pub round: RoundView,
}

impl UpdatesView {
    /// The rounds after `outcome`, and what is to be done next, while the daemon is as given. What
    /// was not asked for ends the round.
    pub open spec fn next(self, daemon: DaemonView, outcome: OutcomeView) -> (
        RoundView,
        ActionView,
    ) {
        match (self.round, outcome) {
            (RoundView::Starting, OutcomeView::Tick) => (RoundView::Waiting, ActionView::Sleep),
            (RoundView::Starting, _) => (RoundView::Starting, ActionView::Sleep),
            (RoundView::Ended, _) => (RoundView::Ended, ActionView::Stop),
            (RoundView::Waiting, OutcomeView::Tick) => if daemon.child_pid != self.pid {
                (RoundView::Ended, ActionView::Stop)
            } else if daemon.status is Ready {
                (RoundView::Locating, ActionView::Locate)
            } else {
                (RoundView::Waiting, ActionView::Sleep)
            },
            (RoundView::Locating, OutcomeView::Located(Ok(path))) => (
                RoundView::Searching(without_mark(path)),
                ActionView::Search,
            ),
            (RoundView::Searching(script), OutcomeView::Found(Some(python))) => (
                RoundView::Reporting,
                ActionView::Run { python, script },
            ),
            (RoundView::Reporting, OutcomeView::Ran(ran)) => (
                RoundView::Measuring(
                    report_in(ran) matches Some(report) && reported_ram(report) is Some,
                ),
                ActionView::Measure(report_in(ran)),
            ),
            (
                RoundView::Measuring(told),
                OutcomeView::Measured { ram_mb, epoch, loss, accuracy },
            ) => if daemon.child_pid != self.pid {
                (RoundView::Ended, ActionView::Stop)
            } else if daemon.input_open && measurement(loss) && measurement(accuracy) {
                (
                    RoundView::Writing,
                    ActionView::Write(
                        framed(system_update(epoch, loss, accuracy, told_ram(told, ram_mb))),
                    ),
                )
            } else {
                (RoundView::Waiting, ActionView::Sleep)
            },
            _ => (RoundView::Waiting, ActionView::Sleep),
        }
    }

    /// The daemon after `outcome`: a write that failed closes its input.
    pub open spec fn daemon_after(self, daemon: DaemonView, outcome: OutcomeView) -> DaemonView {
        if self.round is Writing && outcome == OutcomeView::Written(false) {
            daemon.step(Event::WriteFailed)
        } else {
            daemon
        }
    }

    /// The rounds for `pid` after `history`: what came of each step, and how the daemon then was.
    pub open spec fn after(pid: Option<u32>, history: Seq<(DaemonView, OutcomeView)>) -> UpdatesView
        decreases history.len(),
    {
        if history.len() == 0 {
            UpdatesView { pid, round: RoundView::Starting }
        } else {
            let before = UpdatesView::after(pid, history.drop_last());
            UpdatesView { pid, round: before.next(history.last().0, history.last().1).0 }
        }
    }
}

/// Where a round stands.
enum Round {
    Starting,
    Waiting,
    Locating,
    Searching(String),
    Reporting,
    Measuring(bool),
    Writing,
    Ended,
}

impl View for Round {
    type V = RoundView;

    closed spec fn view(&self) -> RoundView {
        match self {
            Round::Starting => RoundView::Starting,
            Round::Waiting => RoundView::Waiting,
            Round::Locating => RoundView::Locating,
            Round::Searching(script) => RoundView::Searching(script@),
            Round::Reporting => RoundView::Reporting,
            Round::Measuring(told) => RoundView::Measuring(*told),
            Round::Writing => RoundView::Writing,
            Round::Ended => RoundView::Ended,
        }
    }
}

/// What came of the last step.
pub enum Outcome {
    /// It is time for a round. The first tick comes at once, when the process is started.
    Tick,
    /// The path of the script, or the reason why there is none.
    Located(Result<String, String>),
    /// The Python command that works.
    Found(Option<&'static str>),
    /// Whether the script succeeded and what it wrote; nothing where it could not be started.
    Ran(Option<(bool, Vec<u8>)>),
    /// The used memory in megabytes, as far as the report tells it, and the latest metrics.
    Measured { ram_mb: Option<u64>, metrics: TrainingMetrics<serde_json::Value> },
    /// Whether the update was written without a failure.
    Written(bool),
}

impl View for Outcome {
    type V = OutcomeView;

    open spec fn view(&self) -> OutcomeView {
        match self {
            Outcome::Tick => OutcomeView::Tick,
            Outcome::Located(path) => OutcomeView::Located(result_text(*path)),
            Outcome::Found(Some(python)) => OutcomeView::Found(Some(python@)),
            Outcome::Found(None) => OutcomeView::Found(None),
            Outcome::Ran(Some(ran)) => OutcomeView::Ran(Some((ran.0, ran.1@))),
            Outcome::Ran(None) => OutcomeView::Ran(None),
            Outcome::Measured { ram_mb, metrics } => OutcomeView::Measured {
                ram_mb: *ram_mb,
                epoch: metrics.epoch,
                loss: contents(metrics.loss),
                accuracy: contents(metrics.accuracy),
            },
            Outcome::Written(written) => OutcomeView::Written(*written),
        }
    }
}

/// What is to be done next.
pub enum Action {
    /// Wait for the next tick.
    Sleep,
    /// Make no more rounds.
    Stop,
    /// Look for the script that describes the system.
    Locate,
    /// Look for a Python command that works.
    Search,
    /// Run the script.
    Run { python: &'static str, script: String },
    /// Read the used memory from the report, and the metrics.
    Measure(Option<serde_json::Value>),
    /// Write the line to the process.
    Write(String),
}

impl View for Action {
    type V = ActionView;

    open spec fn view(&self) -> ActionView {
        match self {
            Action::Sleep => ActionView::Sleep,
            Action::Stop => ActionView::Stop,
            Action::Locate => ActionView::Locate,
            Action::Search => ActionView::Search,
            Action::Run { python, script } => ActionView::Run { python: python@, script: script@ },
            Action::Measure(Some(report)) => ActionView::Measure(Some(contents(*report))),
            Action::Measure(None) => ActionView::Measure(None),
            Action::Write(line) => ActionView::Write(line@),
        }
    }
}

/// The rounds for one process of the daemon.
pub struct Updates {
    pid: Option<u32>,
    round: Round,
}

impl View for Updates {
    type V = UpdatesView;

    closed spec fn view(&self) -> UpdatesView {
        UpdatesView { pid: self.pid, round: self.round@ }
    }
}

impl Updates {
    /// The rounds for the process `pid`, before the first.
    pub fn new(pid: Option<u32>) -> (updates: Updates)
        ensures
            updates@ == (UpdatesView { pid, round: RoundView::Starting }),
    {
        Updates { pid, round: Round::Starting }
    }

    /// Takes note of what came of the last step, and says what is to be done next.
    pub fn step(&mut self, daemon: &mut LlmDaemon, outcome: Outcome) -> (action: Action)
        ensures
            final(self)@.pid == old(self)@.pid,
            (final(self)@.round, action@) == old(self)@.next(old(daemon)@, outcome@),
            final(daemon)@ == old(self)@.daemon_after(old(daemon)@, outcome@),
            (match (old(self)@.round, outcome@) {
                (RoundView::Reporting, OutcomeView::Ran(Some((true, stdout)))) => read_faithfully(
                    stdout,
                ),
                _ => true,
            }),
            (match (old(self)@.round, outcome@, action) {
                (
                    RoundView::Measuring(told),
                    OutcomeView::Measured { ram_mb, epoch, loss, accuracy },
                    Action::Write(line),
                ) => {
                    let update = system_update(epoch, loss, accuracy, told_ram(told, ram_mb));
                    let mb = match ram_mb {
                        Some(measured) => if told {
                            measured
                        } else {
                            0
                        },
                        None => 0,
                    };
                    &&& line@ == rendered(system_update(epoch, loss, accuracy, mb)).push('\n')
                    &&& member(update, "ram_mb"@) == Some(Json::Integer(mb as int))
                    &&& reads_back(update, parsed(line@.drop_last()))
                    &&& !(loss is Float) && !(accuracy is Float) ==> parsed(line@.drop_last())
                        == Some(update)
                },
                _ => true,
            }),
            action matches Action::Write(line) ==> !line@.drop_last().contains('\n'),
    {
        let mut round = Round::Waiting;
        std::mem::swap(&mut round, &mut self.round);
        match (round, outcome) {
            (Round::Starting, Outcome::Tick) => Action::Sleep,
            (Round::Starting, _) => {
                self.round = Round::Starting;
                Action::Sleep
            },
            (Round::Ended, _) => {
                self.round = Round::Ended;
                Action::Stop
            },
            (Round::Waiting, Outcome::Tick) => {
                if daemon.child_pid() != self.pid {
                    self.round = Round::Ended;
                    Action::Stop
                } else if daemon.is_ready() {
                    self.round = Round::Locating;
                    Action::Locate
                } else {
                    Action::Sleep
                }
            },
            (Round::Locating, Outcome::Located(Ok(path))) => {
                self.round = Round::Searching(script_argument(path.as_str()));
                Action::Search
            },
            (Round::Searching(script), Outcome::Found(Some(python))) => {
                self.round = Round::Reporting;
                Action::Run { python, script }
            },
            (Round::Reporting, Outcome::Ran(ran)) => {
                let report = match ran {
                    Some((success, stdout)) => system_report(success, stdout.as_slice()),
                    None => None,
                };
                let told = match &report {
                    Some(value) => ram_used_gb(value).is_some(),
                    None => false,
                };
                self.round = Round::Measuring(told);
                Action::Measure(report)
            },
            (Round::Measuring(told), Outcome::Measured { ram_mb, metrics }) => {
                if daemon.child_pid() != self.pid {
                    self.round = Round::Ended;
                    return Action::Stop;
                }
                let ram: u64 = match ram_mb {
                    Some(mb) => if told {
                        mb
                    } else {
                        0
                    },
                    None => 0,
                };
                let line = checked_system_update_line(
                    metrics.epoch,
                    metrics.loss,
                    metrics.accuracy,
                    ram,
                );
                match line {
                    Some(text) => {
                        if daemon.is_input_open() {
                            proof {
                                system_update_members(
                                    metrics.epoch,
                                    contents(metrics.loss),
                                    contents(metrics.accuracy),
                                    ram,
                                    seq![],
                                );
                            }
                            self.round = Round::Writing;
                            Action::Write(text)
                        } else {
                            Action::Sleep
                        }
                    },
                    None => Action::Sleep,
                }
            },
            (Round::Writing, Outcome::Written(false)) => {
                daemon.write_failed();
                Action::Sleep
            },
            _ => Action::Sleep,
        }
    }
}

/// At a tick at which no model is loaded nothing is done, and the next tick is waited for; at one
/// at which a model is loaded a round begins.
pub proof fn round_begins_exactly_when_ready(updates: UpdatesView, daemon: DaemonView)
    requires
        updates.round is Waiting,
        daemon.child_pid == updates.pid,
    ensures
        updates.next(daemon, OutcomeView::Tick) == if daemon.status is Ready {
            (RoundView::Locating, ActionView::Locate)
        } else {
            (RoundView::Waiting, ActionView::Sleep)
        },
{
}

/// How many ticks there are in `history`.
pub open spec fn ticks(history: Seq<(DaemonView, OutcomeView)>) -> nat
    decreases history.len(),
{
    if history.len() == 0 {
        0
    } else {
        ticks(history.drop_last()) + if history.last().1 is Tick {
            1nat
        } else {
            0
        }
    }
}

/// Whether a model was loaded, and the process was the daemon's, at the last tick in `history`.
pub open spec fn ready_at_last_tick(
    pid: Option<u32>,
    history: Seq<(DaemonView, OutcomeView)>,
) -> bool
    decreases history.len(),
{
    if history.len() == 0 {
        false
    } else if history.last().1 is Tick {
        history.last().0.status is Ready && history.last().0.child_pid == pid
    } else {
        ready_at_last_tick(pid, history.drop_last())
    }
}

/// A round is under way only after a tick at which a model was loaded, and never after the first
/// tick.
proof fn rounds_follow_ready_ticks(pid: Option<u32>, history: Seq<(DaemonView, OutcomeView)>)
    ensures
        ({
            let round = UpdatesView::after(pid, history).round;
            &&& round is Starting <==> ticks(history) == 0
            &&& !(round is Starting) && !(round is Waiting) && !(round is Ended) ==> ticks(history)
                >= 2 && ready_at_last_tick(pid, history)
        }),
    decreases history.len(),
{
    if history.len() > 0 {
        rounds_follow_ready_ticks(pid, history.drop_last());
    }
}

/// Whatever happens, no script is run and no update is written but after a tick at which a model
/// was loaded, and none after the first tick, which comes when the process is started: the next
/// comes one period later.
pub proof fn nothing_is_done_unless_ready(
    pid: Option<u32>,
    history: Seq<(DaemonView, OutcomeView)>,
    daemon: DaemonView,
    outcome: OutcomeView,
)
    ensures
        ({
            let action = UpdatesView::after(pid, history).next(daemon, outcome).1;
            action is Locate || action is Search || action is Run || action is Measure
                || action is Write ==> ticks(history.push((daemon, outcome))) >= 2
                && ready_at_last_tick(pid, history.push((daemon, outcome)))
        }),
{
    let longer = history.push((daemon, outcome));
    assert(longer.drop_last() =~= history);
    rounds_follow_ready_ticks(pid, history);
    rounds_follow_ready_ticks(pid, longer);
}

/// The rounds of at most one process go on: of two processes, at least one is stopped at its next
/// tick.
pub proof fn rounds_of_one_process_go_on(
    one: UpdatesView,
    other: UpdatesView,
    daemon: DaemonView,
)
    requires
        one.pid != other.pid,
        one.round is Waiting,
        other.round is Waiting,
    ensures
        one.next(daemon, OutcomeView::Tick).1 is Stop || other.next(
            daemon,
            OutcomeView::Tick,
        ).1 is Stop,
{
}

/// Wherever a round stands, an update is written only while the process of its rounds is the
/// daemon's.
pub proof fn update_is_written_for_the_running_process(
    updates: UpdatesView,
    daemon: DaemonView,
    outcome: OutcomeView,
)
    requires
        updates.next(daemon, outcome).1 is Write,
    ensures
        daemon.child_pid == updates.pid,
{
}

/// A step of the rounds of some process: which process, how the daemon then was, and what came of
/// the step before.
pub struct Step {
    pub pid: Option<u32>,
    pub daemon: DaemonView,
    pub outcome: OutcomeView,
}

/// The steps in `history` of the rounds of `pid`.
pub open spec fn steps_of(pid: Option<u32>, history: Seq<Step>) -> Seq<(DaemonView, OutcomeView)>
    decreases history.len(),
{
    if history.len() == 0 {
        seq![]
    } else {
        let earlier = steps_of(pid, history.drop_last());
        if history.last().pid == pid {
            earlier.push((history.last().daemon, history.last().outcome))
        } else {
            earlier
        }
    }
}

/// How many updates are written in `history` while the daemon's process is `pid`, by the rounds of
/// whatever process.
pub open spec fn updates_to(pid: Option<u32>, history: Seq<Step>) -> nat
    decreases history.len(),
{
    if history.len() == 0 {
        0
    } else {
        let earlier = history.drop_last();
        let step = history.last();
        let action = UpdatesView::after(step.pid, steps_of(step.pid, earlier)).next(
            step.daemon,
            step.outcome,
        ).1;
        updates_to(pid, earlier) + if action is Write && step.daemon.child_pid == pid {
            1nat
        } else {
            0
        }
    }
}

/// How many updates are still to come of a round.
spec fn to_come(round: RoundView) -> nat {
    if round is Locating || round is Searching || round is Reporting || round is Measuring {
        1
    } else {
        0
    }
}

/// Each tick but the first brings one update at most.
proof fn updates_follow_ticks(pid: Option<u32>, history: Seq<Step>)
    ensures
        ({
            let own = steps_of(pid, history);
            let round = UpdatesView::after(pid, own).round;
            &&& ticks(own) == 0 ==> updates_to(pid, history) == 0 && round is Starting
            &&& ticks(own) > 0 ==> updates_to(pid, history) + to_come(round) <= ticks(own) - 1
        }),
    decreases history.len(),
{
    if history.len() > 0 {
        let earlier = history.drop_last();
        let step = history.last();
        updates_follow_ticks(pid, earlier);
        if step.pid == pid {
            let own = steps_of(pid, earlier);
            assert(own.push((step.daemon, step.outcome)).drop_last() =~= own);
        }
    }
}

/// Whatever processes were started before and wherever their rounds stand, the process that runs
/// gets one update at most for each tick of its own rounds, and none for the first, which comes
/// when the process is started.
pub proof fn one_update_for_each_tick(pid: Option<u32>, history: Seq<Step>)
    ensures
        updates_to(pid, history) <= if ticks(steps_of(pid, history)) == 0 {
            0
        } else {
            ticks(steps_of(pid, history)) - 1
        },
{
    updates_follow_ticks(pid, history);
}

/// A round that finds the script and Python writes an update, while the process runs and takes
/// input.
pub proof fn round_writes_an_update(
    updates: UpdatesView,
    daemon: DaemonView,
    path: Seq<char>,
    python: Seq<char>,
    ran: Option<(bool, Seq<u8>)>,
    ram_mb: Option<u64>,
    epoch: u32,
    loss: Json,
    accuracy: Json,
)
    requires
        updates.round is Waiting,
        daemon.child_pid == updates.pid,
        daemon.status is Ready,
        daemon.input_open,
        measurement(loss),
        measurement(accuracy),
    ensures
        ({
            let pid = updates.pid;
            let r1 = updates.next(daemon, OutcomeView::Tick).0;
            let r2 = (UpdatesView { pid, round: r1 }).next(
                daemon,
                OutcomeView::Located(Ok(path)),
            ).0;
            let r3 = (UpdatesView { pid, round: r2 }).next(
                daemon,
                OutcomeView::Found(Some(python)),
            ).0;
            let r4 = (UpdatesView { pid, round: r3 }).next(daemon, OutcomeView::Ran(ran)).0;
            (UpdatesView { pid, round: r4 }).next(
                daemon,
                OutcomeView::Measured { ram_mb, epoch, loss, accuracy },
            ).1
        }) == ActionView::Write(
            framed(
                system_update(
                    epoch,
                    loss,
                    accuracy,
                    told_ram(
                        report_in(ran) matches Some(report) && reported_ram(report) is Some,
                        ram_mb,
                    ),
                ),
            ),
        ),
{
}

/// The update that follows carries the metrics that were set last, whatever was set before.
pub proof fn update_carries_the_latest_metrics(
    updates: UpdatesView,
    daemon: DaemonView,
    before: TrainingMetrics<serde_json::Value>,
    earlier: Seq<TrainingMetrics<serde_json::Value>>,
    latest: TrainingMetrics<serde_json::Value>,
    ram_mb: Option<u64>,
)
    requires
        updates.round is Measuring,
        daemon.child_pid == updates.pid,
        daemon.input_open,
        measurement(contents(latest.loss)),
        measurement(contents(latest.accuracy)),
    ensures
        ({
            let metrics = metrics_after(before, earlier.push(latest));
            updates.next(
                daemon,
                OutcomeView::Measured {
                    ram_mb,
                    epoch: metrics.epoch,
                    loss: contents(metrics.loss),
                    accuracy: contents(metrics.accuracy),
                },
            ).1
        }) == ActionView::Write(
            framed(
                system_update(
                    latest.epoch,
                    contents(latest.loss),
                    contents(latest.accuracy),
                    told_ram(updates.round->Measuring_0, ram_mb),
                ),
            ),
        ),
{
    assert(earlier.push(latest).last() == latest);
}

/// A round whose script fails, cannot be started, or writes no JSON still writes its update, with
/// no memory in use.
pub proof fn update_is_written_without_a_report(
    updates: UpdatesView,
    daemon: DaemonView,
    ran: Option<(bool, Seq<u8>)>,
    ram_mb: Option<u64>,
    epoch: u32,
    loss: Json,
    accuracy: Json,
)
    requires
        updates.round is Reporting,
        report_in(ran) is None,
        daemon.child_pid == updates.pid,
        daemon.input_open,
        measurement(loss),
        measurement(accuracy),
    ensures
        ({
            let round = updates.next(daemon, OutcomeView::Ran(ran)).0;
            (UpdatesView { pid: updates.pid, round }).next(
                daemon,
                OutcomeView::Measured { ram_mb, epoch, loss, accuracy },
            ).1
        }) == ActionView::Write(framed(system_update(epoch, loss, accuracy, 0))),
{
}

/// After a write that failed nothing more is said to the daemon: whatever the user says is refused.
pub proof fn chat_is_refused_after_a_failed_update(
    updates: UpdatesView,
    daemon: DaemonView,
    message: Seq<char>,
)
    requires
        updates.round is Writing,
    ensures
        updates.daemon_after(daemon, OutcomeView::Written(false)) == daemon.step(
            Event::WriteFailed,
        ),
        updates.daemon_after(daemon, OutcomeView::Written(false)).chat_answer(message) is Err,
{
}

/// What came of a step is what it was made as: each figure, text and byte as it is.
pub proof fn outcome_is_taken_as_it_is(
    path: String,
    python: &'static str,
    success: bool,
    stdout: Vec<u8>,
    ram_mb: Option<u64>,
    metrics: TrainingMetrics<serde_json::Value>,
    written: bool,
)
    ensures
        Outcome::Tick@ == OutcomeView::Tick,
        Outcome::Located(Ok(path))@ == OutcomeView::Located(Ok(path@)),
        Outcome::Located(Err(path))@ == OutcomeView::Located(Err(path@)),
        Outcome::Found(Some(python))@ == OutcomeView::Found(Some(python@)),
        Outcome::Found(None)@ == OutcomeView::Found(None),
        Outcome::Ran(Some((success, stdout)))@ == OutcomeView::Ran(Some((success, stdout@))),
        Outcome::Ran(None)@ == OutcomeView::Ran(None),
        (Outcome::Measured { ram_mb, metrics })@ == (OutcomeView::Measured {
            ram_mb,
            epoch: metrics.epoch,
            loss: contents(metrics.loss),
            accuracy: contents(metrics.accuracy),
        }),
        Outcome::Written(written)@ == OutcomeView::Written(written),
{
}

/// What is to be done is what it was made as: each text and value as it is.
pub proof fn action_is_taken_as_it_is(
    python: &'static str,
    text: String,
    report: serde_json::Value,
)
    ensures
        Action::Sleep@ == ActionView::Sleep,
        Action::Stop@ == ActionView::Stop,
        Action::Locate@ == ActionView::Locate,
        Action::Search@ == ActionView::Search,
        (Action::Run { python, script: text })@ == (ActionView::Run {
            python: python@,
            script: text@,
        }),
        Action::Measure(Some(report))@ == ActionView::Measure(Some(contents(report))),
        Action::Measure(None)@ == ActionView::Measure(None),
        Action::Write(text)@ == ActionView::Write(text@),
{
}

/// A report is what a script that succeeded wrote, read as JSON; of a script that failed or could
/// not be started there is none.
pub proof fn report_is_read_from_a_script_that_succeeded(stdout: Seq<u8>)
    ensures
        report_in(Some((true, stdout))) == parsed(lossy(stdout)),
        report_in(Some((false, stdout))) is None,
        report_in(None) is None,
{
}

/// Where the report tells the used memory and it was measured, the update that is written tells
/// what was measured, whatever it is, and with it the epoch, the loss and the accuracy as they are.
pub proof fn measured_memory_is_told(
    updates: UpdatesView,
    daemon: DaemonView,
    stdout: Seq<u8>,
    report: Json,
    hardware: Json,
    mb: u64,
    epoch: u32,
    loss: Json,
    accuracy: Json,
)
    requires
        updates.round is Reporting,
        parsed(lossy(stdout)) == Some(report),
        member(report, "hardware"@) == Some(hardware),
        member(hardware, "ram_used_gb"@) is Some,
        daemon.child_pid == updates.pid,
        daemon.input_open,
        measurement(loss),
        measurement(accuracy),
    ensures
        ({
            let round = updates.next(daemon, OutcomeView::Ran(Some((true, stdout)))).0;
            (UpdatesView { pid: updates.pid, round }).next(
                daemon,
                OutcomeView::Measured { ram_mb: Some(mb), epoch, loss, accuracy },
            ).1
        }) == ActionView::Write(rendered(system_update(epoch, loss, accuracy, mb)).push('\n')),
        ({
            let update = system_update(epoch, loss, accuracy, mb);
            &&& member(update, "ram_mb"@) == Some(Json::Integer(mb as int))
            &&& member(update, "epoch"@) == Some(Json::Integer(epoch as int))
            &&& member(update, "loss"@) == Some(loss)
            &&& member(update, "accuracy"@) == Some(accuracy)
        }),
{
    system_update_members(epoch, loss, accuracy, mb, seq![]);
}

/// Where the report does not tell the used memory, or it could not be measured, the update that is
/// written tells that none is used.
pub proof fn memory_that_is_not_known_is_told_as_none(
    updates: UpdatesView,
    daemon: DaemonView,
    ram_mb: Option<u64>,
    told: bool,
    epoch: u32,
    loss: Json,
    accuracy: Json,
)
    requires
        updates.round == RoundView::Measuring(told),
        !told || ram_mb is None,
        daemon.child_pid == updates.pid,
        daemon.input_open,
        measurement(loss),
        measurement(accuracy),
    ensures
        updates.next(daemon, OutcomeView::Measured { ram_mb, epoch, loss, accuracy }).1
            == ActionView::Write(rendered(system_update(epoch, loss, accuracy, 0)).push('\n')),
        member(system_update(epoch, loss, accuracy, 0), "ram_mb"@) == Some(Json::Integer(0)),
{
    system_update_members(epoch, loss, accuracy, 0, seq![]);
}

/// The report tells the used memory exactly where it has `ram_used_gb` in `hardware`; the figures
/// are gathered in any case, with the report where there is one.
pub proof fn figures_are_gathered_after_the_script(
    updates: UpdatesView,
    daemon: DaemonView,
    stdout: Seq<u8>,
    success: bool,
)
    requires
        updates.round is Reporting,
    ensures
        ({
            let (round, action) = updates.next(
                daemon,
                OutcomeView::Ran(Some((success, stdout))),
            );
            &&& success ==> action == ActionView::Measure(parsed(lossy(stdout)))
            &&& !success ==> action == ActionView::Measure(None)
            &&& round == RoundView::Measuring(
                success && (parsed(lossy(stdout)) matches Some(report) && (member(
                    report,
                    "hardware"@,
                ) matches Some(hardware) && member(hardware, "ram_used_gb"@) is Some)),
            )
        }),
        updates.next(daemon, OutcomeView::Ran(None)) == (
            RoundView::Measuring(false),
            ActionView::Measure(None),
        ),
{
}

/// The script is run by the Python command that was found, under the path where it was located
/// without the mark of a verbatim path; where either is missing the round ends.
pub proof fn script_is_run_where_it_was_located(
    pid: Option<u32>,
    daemon: DaemonView,
    path: Seq<char>,
    reason: Seq<char>,
    python: Seq<char>,
)
    ensures
        ({
            let locating = UpdatesView { pid, round: RoundView::Locating };
            let searching = UpdatesView { pid, round: RoundView::Searching(without_mark(path)) };
            &&& locating.next(daemon, OutcomeView::Located(Ok(path))) == (
                searching.round,
                ActionView::Search,
            )
            &&& locating.next(daemon, OutcomeView::Located(Err(reason))) == (
                RoundView::Waiting,
                ActionView::Sleep,
            )
            &&& searching.next(daemon, OutcomeView::Found(Some(python))) == (
                RoundView::Reporting,
                ActionView::Run { python, script: without_mark(path) },
            )
            &&& searching.next(daemon, OutcomeView::Found(None)) == (
                RoundView::Waiting,
                ActionView::Sleep,
            )
        }),
{
}

/// After the first tick the next is waited for. After a write, failed or not, the next tick is
/// waited for too; so it is where the input is closed before the write. Once the rounds have
/// stopped they stay so, whatever happens.
pub proof fn rounds_go_on_until_they_stop(
    pid: Option<u32>,
    daemon: DaemonView,
    written: bool,
    told: bool,
    ram_mb: Option<u64>,
    epoch: u32,
    loss: Json,
    accuracy: Json,
    outcome: OutcomeView,
)
    ensures
        (UpdatesView { pid, round: RoundView::Starting }).next(daemon, OutcomeView::Tick) == (
            RoundView::Waiting,
            ActionView::Sleep,
        ),
        (UpdatesView { pid, round: RoundView::Writing }).next(
            daemon,
            OutcomeView::Written(written),
        ) == (RoundView::Waiting, ActionView::Sleep),
        daemon.child_pid == pid && !daemon.input_open ==> (UpdatesView {
            pid,
            round: RoundView::Measuring(told),
        }).next(daemon, OutcomeView::Measured { ram_mb, epoch, loss, accuracy }) == (
            RoundView::Waiting,
            ActionView::Sleep,
        ),
        (UpdatesView { pid, round: RoundView::Ended }).next(daemon, outcome) == (
            RoundView::Ended,
            ActionView::Stop,
        ),
{
}

/// The rounds stop exactly where the process is found not to be the daemon's: at a tick, or before
/// a write.
pub proof fn rounds_stop_for_another_process_only(
    updates: UpdatesView,
    daemon: DaemonView,
    outcome: OutcomeView,
)
    requires
        !(updates.round is Ended),
    ensures
        updates.next(daemon, outcome).1 is Stop <==> daemon.child_pid != updates.pid && (
        (updates.round is Waiting && outcome is Tick) || (updates.round is Measuring
            && outcome is Measured)),
        updates.next(daemon, outcome).0 is Ended <==> updates.next(daemon, outcome).1 is Stop,
{
}

/// The rounds change nothing of the daemon but that a write that failed closes its input.
pub proof fn rounds_leave_the_daemon_as_it_is(
    updates: UpdatesView,
    daemon: DaemonView,
    outcome: OutcomeView,
)
    ensures
        updates.round is Writing && outcome == OutcomeView::Written(false) ==> updates.daemon_after(
            daemon,
            outcome,
        ) == (DaemonView { input_open: false, ..daemon }),
        !(updates.round is Writing && outcome == OutcomeView::Written(false))
            ==> updates.daemon_after(daemon, outcome) == daemon,
{
}

/// What was not asked for ends the round; before the first tick it is passed over.
pub proof fn unasked_outcomes_end_the_round(
    updates: UpdatesView,
    daemon: DaemonView,
    outcome: OutcomeView,
)
    ensures
        updates.round is Starting && !(outcome is Tick) ==> updates.next(daemon, outcome) == (
            RoundView::Starting,
            ActionView::Sleep,
        ),
        (updates.round is Waiting && !(outcome is Tick)) || (updates.round is Locating && !(
        outcome is Located)) || (updates.round is Searching && !(outcome is Found)) || (
        updates.round is Reporting && !(outcome is Ran)) || (updates.round is Measuring && !(
        outcome is Measured)) || updates.round is Writing ==> updates.next(daemon, outcome) == (
            RoundView::Waiting,
            ActionView::Sleep,
        ),
{
}

/// A value that is no measurement is not written: the next tick is waited for.
pub proof fn only_measurements_are_written(
    updates: UpdatesView,
    daemon: DaemonView,
    ram_mb: Option<u64>,
    epoch: u32,
    loss: Json,
    accuracy: Json,
)
    requires
        updates.round is Measuring,
        daemon.child_pid == updates.pid,
        !(loss is Integer || loss is Float || loss is Null) || !(accuracy is Integer
            || accuracy is Float || accuracy is Null),
    ensures
        updates.next(daemon, OutcomeView::Measured { ram_mb, epoch, loss, accuracy }) == (
            RoundView::Waiting,
            ActionView::Sleep,
        ),
{
}

/// Fifteen seconds pass between two rounds.
pub proof fn rounds_are_fifteen_seconds_apart()
    ensures
        UPDATE_SECONDS == 15,
{
}

} // verus!
