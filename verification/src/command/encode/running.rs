//! The run of an encode whose output is planned: the encoder is started,
//! followed and awaited.
use vstd::prelude::*;

use crate::command::encode::driver::{effect_views, Effect, EffectView};
use crate::command::encode::StreamSizes;

verus! {

/// An output that is complete.
#[derive(Debug, Clone, PartialEq, Eq)]
pub struct CompletedOutput {
    pub path: String,
}

/// What came of an encode.
#[derive(Debug, Clone, PartialEq, Eq)]
pub struct EncodeRun {
    pub input: String,
    pub output: CompletedOutput,
    pub stream_sizes: Option<StreamSizes>,
}

/// What that holds.
pub struct EncodeRunView {
    pub input: Seq<char>,
    pub output: Seq<char>,
    pub stream_sizes: Option<StreamSizes>,
}

impl View for EncodeRun {
    type V = EncodeRunView;

    open spec fn view(&self) -> EncodeRunView {
        EncodeRunView {
            input: self.input@,
            output: self.output.path@,
            stream_sizes: self.stream_sizes,
        }
    }
}

/// How far the encoder has come, at which speed.
#[derive(Debug, Clone, PartialEq, Eq)]
pub struct BarUpdate {
    pub fps: String,
    pub time_micros: u64,
}

/// What the run waits for.
#[derive(Debug, Clone, Copy, PartialEq, Eq, Structural)]
pub enum RunPhase {
    Start,
    Lowering,
    Spawning,
    Encoding,
    Exiting,
    Finalizing,
    Finished,
    Failed,
}

/// What happened.
#[derive(Debug, PartialEq, Eq)]
pub enum RunEvent {
    /// The run is to begin.
    Begin,
    /// The arguments of the encoder are made.
    Lowered,
    /// The encoder runs.
    Spawned,
    /// The encoder told something, which may be worth showing.
    Told(Option<BarUpdate>),
    /// The encoder has no more to tell, and told those sizes of the streams.
    StreamEnded(Option<StreamSizes>),
    /// The encoder has exited.
    Exited,
    /// The output is what it is to be.
    Finalized,
    /// What was to be done failed.
    Failed,
}

/// What an event holds.
pub enum RunEventView {
    Begin,
    Lowered,
    Spawned,
    Told(Option<(Seq<char>, u64)>),
    StreamEnded(Option<StreamSizes>),
    Exited,
    Finalized,
    Failed,
}

impl View for RunEvent {
    type V = RunEventView;

    open spec fn view(&self) -> RunEventView {
        match self {
            RunEvent::Begin => RunEventView::Begin,
            RunEvent::Lowered => RunEventView::Lowered,
            RunEvent::Spawned => RunEventView::Spawned,
            RunEvent::Told(Some(update)) => RunEventView::Told(
                Some((update.fps@, update.time_micros)),
            ),
            RunEvent::Told(None) => RunEventView::Told(None),
            RunEvent::StreamEnded(sizes) => RunEventView::StreamEnded(*sizes),
            RunEvent::Exited => RunEventView::Exited,
            RunEvent::Finalized => RunEventView::Finalized,
            RunEvent::Failed => RunEventView::Failed,
        }
    }
}

/// What to do, and then to tell the outcome of.
#[derive(Debug, PartialEq, Eq)]
pub enum RunTask {
    /// Make the arguments of the encoder.
    LowerArgs,
    /// Run the encoder.
    Spawn,
    /// Wait for what the encoder tells.
    Poll,
    /// Wait until the encoder has exited.
    Wait,
    /// Make the output what it is to be.
    Finalize,
    /// Keep the output: it is complete.
    Done(EncodeRun),
    /// End with the error; the output is dropped.
    Fail,
}

/// What a task holds.
pub enum RunTaskView {
    LowerArgs,
    Spawn,
    Poll,
    Wait,
    Finalize,
    Done(EncodeRunView),
    Fail,
}

impl View for RunTask {
    type V = RunTaskView;

    open spec fn view(&self) -> RunTaskView {
        match self {
            RunTask::LowerArgs => RunTaskView::LowerArgs,
            RunTask::Spawn => RunTaskView::Spawn,
            RunTask::Poll => RunTaskView::Poll,
            RunTask::Wait => RunTaskView::Wait,
            RunTask::Finalize => RunTaskView::Finalize,
            RunTask::Done(run) => RunTaskView::Done(run@),
            RunTask::Fail => RunTaskView::Fail,
        }
    }
}

/// What to show first, in order, and what to do then.
#[derive(Debug, PartialEq, Eq)]
pub struct RunStep {
    pub effects: Vec<Effect>,
    pub task: RunTask,
}

/// What a step holds.
pub struct RunStepView {
    pub effects: Seq<EffectView>,
    pub task: RunTaskView,
}

impl View for RunStep {
    type V = RunStepView;

    open spec fn view(&self) -> RunStepView {
        RunStepView { effects: effect_views(self.effects@), task: self.task@ }
    }
}

/// The run of an encode.
#[derive(Debug, PartialEq, Eq)]
pub struct RunDriver {
    pub input: String,
    pub output: String,
    /// The name of the output in the log.
    pub log_name: String,
    /// How long the input is could be told.
    pub has_duration: bool,
    pub phase: RunPhase,
    pub stream_sizes: Option<StreamSizes>,
}

/// What a run holds.
pub struct RunView {
    pub input: Seq<char>,
    pub output: Seq<char>,
    pub log_name: Seq<char>,
    pub has_duration: bool,
    pub phase: RunPhase,
    pub stream_sizes: Option<StreamSizes>,
}

impl View for RunDriver {
    type V = RunView;

    open spec fn view(&self) -> RunView {
        RunView {
            input: self.input@,
            output: self.output@,
            log_name: self.log_name@,
            has_duration: self.has_duration,
            phase: self.phase,
            stream_sizes: self.stream_sizes,
        }
    }
}

impl RunView {
    /// A run that has not begun.
    pub open spec fn initial(
        input: Seq<char>,
        output: Seq<char>,
        log_name: Seq<char>,
        has_duration: bool,
    ) -> RunView {
        RunView {
            input,
            output,
            log_name,
            has_duration,
            phase: RunPhase::Start,
            stream_sizes: None,
        }
    }

    /// The event can happen now: it tells the outcome of what was to be done.
    pub open spec fn accepts(self, event: RunEventView) -> bool {
        match event {
            RunEventView::Begin => self.phase == RunPhase::Start,
            RunEventView::Lowered => self.phase == RunPhase::Lowering,
            RunEventView::Spawned => self.phase == RunPhase::Spawning,
            RunEventView::Told(_) => self.phase == RunPhase::Encoding,
            RunEventView::StreamEnded(_) => self.phase == RunPhase::Encoding,
            RunEventView::Exited => self.phase == RunPhase::Exiting,
            RunEventView::Finalized => self.phase == RunPhase::Finalizing,
            RunEventView::Failed => self.phase != RunPhase::Start && self.phase
                != RunPhase::Finished && self.phase != RunPhase::Failed,
        }
    }

    pub open spec fn at(self, phase: RunPhase) -> RunView {
        RunView { phase, ..self }
    }

    /// What is shown of the progress: the speed, the place where the length is
    /// known, and it is handed on.
    pub open spec fn shown(self, update: Option<(Seq<char>, u64)>) -> Seq<EffectView> {
        match update {
            Some((fps, time)) => seq![EffectView::Message(fps + " fps, "@)] + (
            if self.has_duration {
                seq![EffectView::Position(time)]
            } else {
                Seq::empty()
            }) + seq![EffectView::Notify { fps, time_micros: time, output: self.output }],
            None => Seq::empty(),
        }
    }

    /// The run after an event, and what it does then.
    pub open spec fn step(self, event: RunEventView) -> (RunView, RunStepView) {
        match event {
            RunEventView::Begin => (
                self.at(RunPhase::Lowering),
                RunStepView {
                    effects: seq![EffectView::LogStart(self.log_name)],
                    task: RunTaskView::LowerArgs,
                },
            ),
            RunEventView::Lowered => (
                self.at(RunPhase::Spawning),
                RunStepView { effects: Seq::empty(), task: RunTaskView::Spawn },
            ),
            RunEventView::Spawned => (
                self.at(RunPhase::Encoding),
                RunStepView { effects: Seq::empty(), task: RunTaskView::Poll },
            ),
            RunEventView::Told(update) => (
                self,
                RunStepView { effects: self.shown(update), task: RunTaskView::Poll },
            ),
            RunEventView::StreamEnded(sizes) => (
                RunView { phase: RunPhase::Exiting, stream_sizes: sizes, ..self },
                RunStepView { effects: Seq::empty(), task: RunTaskView::Wait },
            ),
            RunEventView::Exited => (
                self.at(RunPhase::Finalizing),
                RunStepView { effects: seq![EffectView::FinishBar], task: RunTaskView::Finalize },
            ),
            RunEventView::Finalized => (
                self.at(RunPhase::Finished),
                RunStepView {
                    effects: Seq::empty(),
                    task: RunTaskView::Done(
                        EncodeRunView {
                            input: self.input,
                            output: self.output,
                            stream_sizes: self.stream_sizes,
                        },
                    ),
                },
            ),
            RunEventView::Failed => (
                self.at(RunPhase::Failed),
                RunStepView { effects: Seq::empty(), task: RunTaskView::Fail },
            ),
        }
    }

    /// The run after those events.
    pub open spec fn after(self, events: Seq<RunEventView>) -> RunView
        decreases events.len(),
    {
        if events.len() == 0 {
            self
        } else {
            self.after(events.drop_last()).step(events.last()).0
        }
    }

    /// Each of those events can happen when its turn comes.
    pub open spec fn can_see(self, events: Seq<RunEventView>) -> bool
        decreases events.len(),
    {
        events.len() > 0 ==> self.can_see(events.drop_last()) && self.after(
            events.drop_last(),
        ).accepts(events.last())
    }
}

fn silently(task: RunTask) -> (r: RunStep)
    ensures
        r@ == (RunStepView { effects: Seq::empty(), task: task@ }),
{
    let r = RunStep { effects: Vec::new(), task };
    assert(r@.effects =~= Seq::<EffectView>::empty());
    r
}

impl RunDriver {
    /// A run that has not begun.
    pub fn new(input: String, output: String, log_name: String, has_duration: bool) -> (r: RunDriver)
        ensures
            r@ == RunView::initial(input@, output@, log_name@, has_duration),
    {
        RunDriver {
            input,
            output,
            log_name,
            has_duration,
            phase: RunPhase::Start,
            stream_sizes: None,
        }
    }

    fn at(self, phase: RunPhase) -> (r: RunDriver)
        ensures
            r@ == self@.at(phase),
    {
        RunDriver {
            input: self.input,
            output: self.output,
            log_name: self.log_name,
            has_duration: self.has_duration,
            phase,
            stream_sizes: self.stream_sizes,
        }
    }

    /// Whether the event can happen now.
    pub fn can_accept(&self, event: &RunEvent) -> (r: bool)
        ensures
            r == self@.accepts(event@),
    {
        match event {
            RunEvent::Begin => self.phase == RunPhase::Start,
            RunEvent::Lowered => self.phase == RunPhase::Lowering,
            RunEvent::Spawned => self.phase == RunPhase::Spawning,
            RunEvent::Told(_) => self.phase == RunPhase::Encoding,
            RunEvent::StreamEnded(_) => self.phase == RunPhase::Encoding,
            RunEvent::Exited => self.phase == RunPhase::Exiting,
            RunEvent::Finalized => self.phase == RunPhase::Finalizing,
            RunEvent::Failed => self.phase != RunPhase::Start && self.phase != RunPhase::Finished
                && self.phase != RunPhase::Failed,
        }
    }

    /// What is shown of the progress.
    fn show(&self, update: Option<BarUpdate>) -> (r: Vec<Effect>)
        ensures
            effect_views(r@) == self@.shown(
                match update {
                    Some(update) => Some((update.fps@, update.time_micros)),
                    None => None,
                },
            ),
    {
        let mut effects: Vec<Effect> = Vec::new();
        match update {
            Some(update) => {
                let ghost shown = self@.shown(Some((update.fps@, update.time_micros)));
                let time: u64 = update.time_micros;
                effects.push(Effect::Message(update.fps.clone().concat(" fps, ")));
                if self.has_duration {
                    effects.push(Effect::Position(time));
                }
                effects.push(
                    Effect::Notify {
                        fps: update.fps,
                        time_micros: time,
                        output: self.output.clone(),
                    },
                );
                assert(effect_views(effects@) =~= shown);
            },
            None => {
                assert(effect_views(effects@) =~= Seq::<EffectView>::empty());
            },
        }
        effects
    }

    /// The run after an event, and what it does then.
    pub fn step(self, event: RunEvent) -> (r: (RunDriver, RunStep))
        requires
            self@.accepts(event@),
        ensures
            (r.0@, r.1@) == self@.step(event@),
    {
        match event {
            RunEvent::Begin => {
                let mut effects: Vec<Effect> = Vec::new();
                effects.push(Effect::LogStart(self.log_name.clone()));
                assert(effect_views(effects@) =~= self@.step(RunEventView::Begin).1.effects);
                (self.at(RunPhase::Lowering), RunStep { effects, task: RunTask::LowerArgs })
            },
            RunEvent::Lowered => (self.at(RunPhase::Spawning), silently(RunTask::Spawn)),
            RunEvent::Spawned => (self.at(RunPhase::Encoding), silently(RunTask::Poll)),
            RunEvent::Told(update) => {
                let effects = self.show(update);
                (self, RunStep { effects, task: RunTask::Poll })
            },
            RunEvent::StreamEnded(sizes) => (
                RunDriver {
                    input: self.input,
                    output: self.output,
                    log_name: self.log_name,
                    has_duration: self.has_duration,
                    phase: RunPhase::Exiting,
                    stream_sizes: sizes,
                },
                silently(RunTask::Wait),
            ),
            RunEvent::Exited => {
                let mut effects: Vec<Effect> = Vec::new();
                effects.push(Effect::FinishBar);
                assert(effect_views(effects@) =~= seq![EffectView::FinishBar]);
                (self.at(RunPhase::Finalizing), RunStep { effects, task: RunTask::Finalize })
            },
            RunEvent::Finalized => {
                let run = EncodeRun {
                    input: self.input.clone(),
                    output: CompletedOutput { path: self.output.clone() },
                    stream_sizes: self.stream_sizes,
                };
                (self.at(RunPhase::Finished), silently(RunTask::Done(run)))
            },
            RunEvent::Failed => (self.at(RunPhase::Failed), silently(RunTask::Fail)),
        }
    }
}

/// The output is kept only when the encoder has exited well and the output has
/// been made what it is to be; the result names the input and the output of
/// the run, and the sizes that the encoder told.
pub proof fn only_a_finished_run_is_kept(run: RunView, event: RunEventView)
    requires
        run.accepts(event),
    ensures
        run.step(event).1.task is Done <==> event is Finalized,
        run.step(event).1.task matches RunTaskView::Done(result) ==> result == (EncodeRunView {
            input: run.input,
            output: run.output,
            stream_sizes: run.stream_sizes,
        }),
        run.step(event).1.task is Fail <==> event is Failed,
{
}

/// A run that has ended sees nothing more, and one that has not ended well is
/// never kept.
pub proof fn ended_run_is_over(run: RunView, event: RunEventView)
    requires
        run.phase == RunPhase::Finished || run.phase == RunPhase::Failed,
    ensures
        !run.accepts(event),
{
}

/// The result of a run names its input and its output, and the sizes that the
/// encoder told when it had no more to tell.
pub proof fn result_is_of_this_run(
    input: Seq<char>,
    output: Seq<char>,
    log_name: Seq<char>,
    has_duration: bool,
    events: Seq<RunEventView>,
)
    requires
        RunView::initial(input, output, log_name, has_duration).can_see(events),
    ensures
        ({
            let now = RunView::initial(input, output, log_name, has_duration).after(events);
            &&& now.input == input
            &&& now.output == output
            &&& now.phase == RunPhase::Exiting || now.phase == RunPhase::Finalizing || now.phase
                == RunPhase::Finished ==> exists|i: int|
                0 <= i < events.len() && #[trigger] events[i] == RunEventView::StreamEnded(
                    now.stream_sizes,
                )
            &&& now.phase == RunPhase::Finalizing || now.phase == RunPhase::Finished ==> exists|i: int|
                0 <= i < events.len() && #[trigger] events[i] is Exited
        }),
    decreases events.len(),
{
    if events.len() > 0 {
        let before = events.drop_last();
        result_is_of_this_run(input, output, log_name, has_duration, before);
        let then = RunView::initial(input, output, log_name, has_duration).after(before);
        assert(events[events.len() - 1] == events.last());
        if then.phase == RunPhase::Exiting || then.phase == RunPhase::Finalizing {
            let i = choose|i: int|
                0 <= i < before.len() && #[trigger] before[i] == RunEventView::StreamEnded(
                    then.stream_sizes,
                );
            assert(events[i] == before[i]);
        }
        if then.phase == RunPhase::Finalizing {
            let i = choose|i: int| 0 <= i < before.len() && #[trigger] before[i] is Exited;
            assert(events[i] == before[i]);
        }
    }
}

} // verus!
