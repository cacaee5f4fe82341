use vstd::prelude::*;
use crate::log::LogEntry;

verus! {

/// Seconds between two ticks of the repeating job.
pub const TICK_PERIOD_SECS: u64 = 1;

/// Delay, in seconds, of the job spawned once when the widget is created.
pub const ONE_SHOT_DELAY_SECS: u64 = 0;

/// Message of the console assertion made after a cancel.
pub const JOB_LEFT_MESSAGE: &'static str = "Job still exists";

/// Name of the console timer closed when the run is done.
pub const TIMER_NAME: &'static str = "Timer";

/// Name of the console counter bumped on each tick.
pub const TICK_COUNTER: &'static str = "Tick";

/// What the widget reacts to.
#[derive(Clone, Copy, Debug, PartialEq, Eq, Structural)]
pub enum Message {
    /// START was clicked: begin a new run of the repeating job.
    StartInterval,
    /// STOP was clicked: end the current run, if any.
    Cancel,
    /// The current run is over.
    Done,
    /// The repeating job fired.
    Tick,
}

/// What the host must do with the scheduler after a message.
#[derive(Clone, Copy, Debug, PartialEq, Eq, Structural)]
pub enum JobCommand {
    /// Leave the held jobs as they are.
    Keep,
    /// Spawn the job that fires once after `ONE_SHOT_DELAY_SECS`, and hold
    /// it for the widget's whole life.
    SpawnOneShot,
    /// Spawn a job that sends `Tick` every `TICK_PERIOD_SECS`, and hold it
    /// as the active job in place of any earlier one.
    SpawnInterval,
    /// Drop the active job, if any, which stops it.
    Release,
}

/// One call the host makes on its console.
#[derive(Clone, Copy, Debug, PartialEq, Eq, Structural)]
pub enum ConsoleCall {
    /// A plain line.
    Log(LogEntry),
    /// A warning.
    Warn(LogEntry),
    /// An informational line.
    Info(LogEntry),
    /// An assertion with `JOB_LEFT_MESSAGE`: it fails when `holds` is false.
    Assert { holds: bool },
    /// Opens a group.
    Group,
    /// Closes the group opened last.
    GroupEnd,
    /// Ends the console timer `TIMER_NAME`.
    TimeNamedEnd,
    /// Bumps the console counter `TICK_COUNTER`.
    CountNamed,
}

/// Everything the host must do after the widget handled a message.
pub struct Effects {
    pub job: JobCommand,
    pub console: Vec<ConsoleCall>,
    pub should_render: bool,
}

/// What a rendering layer draws: the two buttons and the log lines.
pub struct Frame {
    /// START is disabled while a job runs.
    pub start_disabled: bool,
    /// STOP is disabled while no job runs.
    pub stop_disabled: bool,
    /// The log's text, oldest line first.
    pub lines: Vec<&'static str>,
}

/// The widget's state as a mathematical value.
pub struct ModelView {
    /// Whether a repeating job is held.
    pub running: bool,
    /// The log, oldest entry first.
    pub log: Seq<LogEntry>,
}

impl ModelView {
    /// The state of a freshly created widget.
    pub open spec fn initial() -> ModelView {
        ModelView { running: false, log: Seq::empty() }
    }

    /// The state after handling `msg`.
    pub open spec fn step(self, msg: Message) -> ModelView {
        match msg {
            Message::StartInterval => ModelView {
                running: true,
                log: seq![LogEntry::IntervalStarted],
            },
            Message::Cancel => ModelView { running: false, log: self.log.push(LogEntry::Canceled) },
            Message::Done => ModelView { running: false, log: self.log.push(LogEntry::Done) },
            Message::Tick => self,
        }
    }

    /// What the host does with the scheduler for `msg`.
    pub open spec fn job_command(msg: Message) -> JobCommand {
        match msg {
            Message::StartInterval => JobCommand::SpawnInterval,
            Message::Cancel | Message::Done => JobCommand::Release,
            Message::Tick => JobCommand::Keep,
        }
    }

    /// The console calls the host makes for `msg`.
    pub open spec fn console_calls(msg: Message) -> Seq<ConsoleCall> {
        match msg {
            Message::StartInterval => seq![ConsoleCall::Log(LogEntry::IntervalStarted)],
            Message::Cancel => seq![
                ConsoleCall::Warn(LogEntry::Canceled),
                ConsoleCall::Assert { holds: true },
            ],
            Message::Done => seq![
                ConsoleCall::Group,
                ConsoleCall::Info(LogEntry::Done),
                ConsoleCall::TimeNamedEnd,
                ConsoleCall::GroupEnd,
            ],
            Message::Tick => seq![ConsoleCall::CountNamed],
        }
    }
}

/// The timer widget.
pub struct Model {
    job: bool,
    message: Vec<LogEntry>,
}

impl View for Model {
    type V = ModelView;

    closed spec fn view(&self) -> ModelView {
        ModelView { running: self.job, log: self.message@ }
    }
}

impl Model {
    /// A new widget: idle, with an empty log. The host also spawns the
    /// one-shot job that the command asks for.
    pub fn create() -> (r: (Model, JobCommand))
        ensures
            r.0@ == ModelView::initial(),
            r.1 == JobCommand::SpawnOneShot,
    {
        let model = Model { job: false, message: Vec::new() };
        proof {
            assert(model@.log =~= Seq::<LogEntry>::empty());
        }
        (model, JobCommand::SpawnOneShot)
    }

    /// Whether a repeating job is held.
    pub fn has_job(&self) -> (r: bool)
        ensures
            r == self@.running,
    {
        self.job
    }

    /// What the rendering layer draws for the current state.
    pub fn render(&self) -> (r: Frame)
        ensures
            r.start_disabled == self@.running,
            r.stop_disabled == !self@.running,
            r.lines@.len() == self@.log.len(),
            forall|i: int| 0 <= i < r.lines@.len() ==> (#[trigger] r.lines@[i])@ == self@.log[i].text_spec(),
    {
        let mut lines: Vec<&'static str> = Vec::new();
        let mut i: usize = 0;
        while i < self.message.len()
            invariant
                i <= self.message@.len(),
                lines@.len() == i,
                forall|j: int| 0 <= j < i ==> (#[trigger] lines@[j])@ == self.message@[j].text_spec(),
            decreases self.message@.len() - i,
        {
            lines.push(self.message[i].text());
            i = i + 1;
        }
        Frame { start_disabled: self.job, stop_disabled: !self.job, lines }
    }

    /// Handles `msg`: updates the state and says what the host must do.
    pub fn update(&mut self, msg: Message) -> (r: Effects)
        ensures
            final(self)@ == old(self)@.step(msg),
            r.job == ModelView::job_command(msg),
            r.console@ == ModelView::console_calls(msg),
            r.should_render,
            msg == Message::StartInterval ==> final(self)@.running
                && final(self)@.log == seq![LogEntry::IntervalStarted],
            msg == Message::Cancel ==> !final(self)@.running
                && final(self)@.log == old(self)@.log.push(LogEntry::Canceled),
            msg == Message::Done ==> !final(self)@.running
                && final(self)@.log == old(self)@.log.push(LogEntry::Done),
            msg == Message::Tick ==> final(self)@ == old(self)@,
    {
        let mut console: Vec<ConsoleCall> = Vec::new();
        let job = match msg {
            Message::StartInterval => {
                self.job = true;
                self.message.clear();
                self.message.push(LogEntry::IntervalStarted);
                console.push(ConsoleCall::Log(LogEntry::IntervalStarted));
                JobCommand::SpawnInterval
            },
            Message::Cancel => {
                self.job = false;
                self.message.push(LogEntry::Canceled);
                console.push(ConsoleCall::Warn(LogEntry::Canceled));
                console.push(ConsoleCall::Assert { holds: !self.job });
                JobCommand::Release
            },
            Message::Done => {
                self.message.push(LogEntry::Done);
                console.push(ConsoleCall::Group);
                console.push(ConsoleCall::Info(LogEntry::Done));
                console.push(ConsoleCall::TimeNamedEnd);
                console.push(ConsoleCall::GroupEnd);
                self.job = false;
                JobCommand::Release
            },
            Message::Tick => {
                console.push(ConsoleCall::CountNamed);
                JobCommand::Keep
            },
        };
        proof {
            assert(console@ =~= ModelView::console_calls(msg));
            assert(self.message@ =~= old(self)@.step(msg).log);
        }
        Effects { job, console, should_render: true }
    }
}

} // verus!
