//! What an encode does next: it is told what happened and says what to do.
use vstd::prelude::*;

use crate::command::encode::summary::{
    encode_summary, human_bytes, named_parts, segment_views, summary, Segment, SegmentView,
};
use crate::command::encode::{OutputPlan, PlanView, StreamSizes, TempOutput, TempOutputView};
use crate::json::text_view;
use crate::text::same_text;

verus! {

/// How the output is to be made.
#[derive(Debug, Clone, PartialEq, Eq)]
pub struct EncodeOptions {
    pub audio_codec: Option<String>,
    pub downmix_to_stereo: bool,
    pub video_only: bool,
    /// The output may be the input.
    pub overwrite_input: bool,
}

/// What the options hold.
pub struct OptionsView {
    pub audio_codec: Option<Seq<char>>,
    pub downmix_to_stereo: bool,
    pub video_only: bool,
    pub overwrite_input: bool,
}

impl View for EncodeOptions {
    type V = OptionsView;

    open spec fn view(&self) -> OptionsView {
        OptionsView {
            audio_codec: text_view(self.audio_codec),
            downmix_to_stereo: self.downmix_to_stereo,
            video_only: self.video_only,
            overwrite_input: self.overwrite_input,
        }
    }
}

/// What is known of the input.
#[derive(Debug, Clone, Copy, PartialEq, Eq)]
pub struct Probe {
    /// How long it is, in microseconds, if that could be told.
    pub duration_micros: Option<u64>,
    pub has_audio: bool,
    /// The channels of the audio stream that has most of them.
    pub max_audio_channels: Option<i64>,
}

/// Why an encode ended before its time.
#[derive(Debug, Clone, Copy, PartialEq, Eq, Structural)]
pub enum EncodeError {
    /// The output is the input.
    SameFile,
    /// The audio cannot be both mixed down and copied.
    DownmixOfCopy,
    /// What was to be done failed.
    TaskFailed,
}

impl EncodeError {
    /// The text of the error; of a task that failed there is none here.
    pub fn message(&self) -> (r: Option<&'static str>)
        ensures
            match r {
                Some(text) => Some(text@) == error_text(*self),
                None => error_text(*self) is None,
            },
    {
        match self {
            EncodeError::SameFile => Some(
                "Input and Output are specified as the same file. Not proceeding. Pass in `--overwrite-input` to allow this.",
            ),
            EncodeError::DownmixOfCopy => Some(
                "--stereo-downmix cannot be used with --acodec copy",
            ),
            EncodeError::TaskFailed => None,
        }
    }
}

/// The text of an error that the options give rise to.
pub open spec fn error_text(error: EncodeError) -> Option<Seq<char>> {
    match error {
        EncodeError::SameFile => Some(
            "Input and Output are specified as the same file. Not proceeding. Pass in `--overwrite-input` to allow this."@,
        ),
        EncodeError::DownmixOfCopy => Some("--stereo-downmix cannot be used with --acodec copy"@),
        EncodeError::TaskFailed => None,
    }
}

/// The audio is mixed down: that was asked for, and there are more than three
/// channels.
pub open spec fn mixes_down(options: OptionsView, probe: Probe) -> bool {
    options.downmix_to_stereo && match probe.max_audio_channels {
        Some(channels) => channels > 3,
        None => false,
    }
}

/// The options ask for audio that is both mixed down and copied.
pub open spec fn contradictory(options: OptionsView, probe: Probe) -> bool {
    mixes_down(options, probe) && options.audio_codec == Some("copy"@)
}

/// Whether the audio is mixed down.
pub fn stereo_downmix(options: &EncodeOptions, probe: &Probe) -> (r: bool)
    ensures
        r == mixes_down(options@, *probe),
        r <==> options.downmix_to_stereo && (probe.max_audio_channels matches Some(c) && c > 3),
{
    options.downmix_to_stereo && match probe.max_audio_channels {
        Some(channels) => channels > 3,
        None => false,
    }
}

/// What the encode waits for.
#[derive(Debug, Clone, Copy, PartialEq, Eq, Structural)]
pub enum EncodePhase {
    Start,
    Comparing,
    Lowering,
    MakingTemp,
    Spawning,
    Encoding,
    Exiting,
    Persisting,
    Measuring,
    Finished,
    Failed,
}

/// What happened.
#[derive(Debug, PartialEq, Eq)]
pub enum EncodeEvent {
    /// The encode is to begin.
    Begin,
    /// Whether output and input are one file, if that could be told.
    Compared(Option<bool>),
    /// The arguments of the encoder are made.
    Lowered,
    /// The temporary directory is made, and holds the output from now on: it is
    /// the planned output, written to another place.
    TempMade(TempOutput),
    /// The encoder runs.
    Spawned,
    /// The encoder has come that far, at that speed.
    Progress { fps: String, running: bool, time_micros: u64 },
    /// The encoder told the sizes of the streams.
    Sizes(StreamSizes),
    /// The encoder has no more to tell.
    StreamEnded,
    /// The encoder has exited.
    Exited,
    /// The output is in place.
    Persisted,
    /// The output has that size, and that share of the size of the input in
    /// percent.
    Measured { output_size: u64, percent: String },
    /// What was to be done failed.
    Failed,
}

/// What an event holds.
pub enum EventView {
    Begin,
    Compared(Option<bool>),
    Lowered,
    TempMade(TempOutputView),
    Spawned,
    Progress { fps: Seq<char>, running: bool, time_micros: u64 },
    Sizes(StreamSizes),
    StreamEnded,
    Exited,
    Persisted,
    Measured { output_size: u64, percent: Seq<char> },
    Failed,
}

impl View for EncodeEvent {
    type V = EventView;

    open spec fn view(&self) -> EventView {
        match self {
            EncodeEvent::Begin => EventView::Begin,
            EncodeEvent::Compared(same) => EventView::Compared(*same),
            EncodeEvent::Lowered => EventView::Lowered,
            EncodeEvent::TempMade(temp) => EventView::TempMade(temp@),
            EncodeEvent::Spawned => EventView::Spawned,
            EncodeEvent::Progress { fps, running, time_micros } => EventView::Progress {
                fps: fps@,
                running: *running,
                time_micros: *time_micros,
            },
            EncodeEvent::Sizes(sizes) => EventView::Sizes(*sizes),
            EncodeEvent::StreamEnded => EventView::StreamEnded,
            EncodeEvent::Exited => EventView::Exited,
            EncodeEvent::Persisted => EventView::Persisted,
            EncodeEvent::Measured { output_size, percent } => EventView::Measured {
                output_size: *output_size,
                percent: percent@,
            },
            EncodeEvent::Failed => EventView::Failed,
        }
    }
}

/// What to show. It cannot fail.
#[derive(Debug, PartialEq, Eq)]
pub enum Effect {
    /// Name the output.
    Announce(String),
    /// Set the message of the progress bar.
    Message(String),
    /// Set the length of the progress bar.
    Length(u64),
    /// Log that the encode of that name begins.
    LogStart(String),
    /// Move the progress bar, and log the progress.
    Position(u64),
    /// Hand the progress on: the speed, the time and the output.
    Notify { fps: String, time_micros: u64, output: String },
    /// Complete the progress bar.
    FinishBar,
    /// Say what came of it.
    Summary(Vec<Segment>),
}

/// What an effect holds.
pub enum EffectView {
    Announce(Seq<char>),
    Message(Seq<char>),
    Length(u64),
    LogStart(Seq<char>),
    Position(u64),
    Notify { fps: Seq<char>, time_micros: u64, output: Seq<char> },
    FinishBar,
    Summary(Seq<SegmentView>),
}

impl View for Effect {
    type V = EffectView;

    open spec fn view(&self) -> EffectView {
        match self {
            Effect::Announce(output) => EffectView::Announce(output@),
            Effect::Message(text) => EffectView::Message(text@),
            Effect::Length(length) => EffectView::Length(*length),
            Effect::LogStart(name) => EffectView::LogStart(name@),
            Effect::Position(position) => EffectView::Position(*position),
            Effect::Notify { fps, time_micros, output } => EffectView::Notify {
                fps: fps@,
                time_micros: *time_micros,
                output: output@,
            },
            Effect::FinishBar => EffectView::FinishBar,
            Effect::Summary(segments) => EffectView::Summary(segment_views(segments@)),
        }
    }
}

/// What the effects hold.
pub open spec fn effect_views(effects: Seq<Effect>) -> Seq<EffectView> {
    Seq::new(effects.len(), |i: int| effects[i]@)
}

/// What to do, and then to tell the outcome of.
#[derive(Debug, PartialEq, Eq)]
pub enum EncodeTask {
    /// Tell whether output and input are one file.
    CompareFiles,
    /// Make the arguments of the encoder.
    LowerArgs { video_only: bool },
    /// Make a temporary directory there.
    MakeTemp { parent: String },
    /// Run the encoder, with that output.
    Spawn { path: String, has_audio: bool, audio_codec: Option<String>, stereo_downmix: bool },
    /// Wait for what the encoder tells.
    Poll,
    /// Wait until the encoder has exited.
    Wait,
    /// Move the output into place.
    Persist { from: String, to: String },
    /// Tell the sizes of output and input.
    Measure,
    /// Nothing any more.
    Done,
    /// End with that error; what was written meanwhile is dropped.
    Fail(EncodeError),
}

/// What a task holds.
pub enum TaskView {
    CompareFiles,
    LowerArgs { video_only: bool },
    MakeTemp { parent: Seq<char> },
    Spawn {
        path: Seq<char>,
        has_audio: bool,
        audio_codec: Option<Seq<char>>,
        stereo_downmix: bool,
    },
    Poll,
    Wait,
    Persist { from: Seq<char>, to: Seq<char> },
    Measure,
    Done,
    Fail(EncodeError),
}

impl View for EncodeTask {
    type V = TaskView;

    open spec fn view(&self) -> TaskView {
        match self {
            EncodeTask::CompareFiles => TaskView::CompareFiles,
            EncodeTask::LowerArgs { video_only } => TaskView::LowerArgs { video_only: *video_only },
            EncodeTask::MakeTemp { parent } => TaskView::MakeTemp { parent: parent@ },
            EncodeTask::Spawn { path, has_audio, audio_codec, stereo_downmix } => TaskView::Spawn {
                path: path@,
                has_audio: *has_audio,
                audio_codec: text_view(*audio_codec),
                stereo_downmix: *stereo_downmix,
            },
            EncodeTask::Poll => TaskView::Poll,
            EncodeTask::Wait => TaskView::Wait,
            EncodeTask::Persist { from, to } => TaskView::Persist { from: from@, to: to@ },
            EncodeTask::Measure => TaskView::Measure,
            EncodeTask::Done => TaskView::Done,
            EncodeTask::Fail(error) => TaskView::Fail(*error),
        }
    }
}

/// What to show first, in order, and what to do then.
#[derive(Debug, PartialEq, Eq)]
pub struct EncodeStep {
    pub effects: Vec<Effect>,
    pub task: EncodeTask,
}

/// What a step holds.
pub struct StepView {
    pub effects: Seq<EffectView>,
    pub task: TaskView,
}

impl View for EncodeStep {
    type V = StepView;

    open spec fn view(&self) -> StepView {
        StepView { effects: effect_views(self.effects@), task: self.task@ }
    }
}

/// An encode.
#[derive(Debug, PartialEq, Eq)]
pub struct EncodeDriver {
    pub options: EncodeOptions,
    pub probe: Probe,
    pub plan: OutputPlan,
    pub phase: EncodePhase,
    /// Where the output is written until it is complete, once that is known.
    pub temp_path: String,
    /// The sizes of the streams, as far as the encoder told them.
    pub stream_sizes: Option<StreamSizes>,
}

/// What an encode holds.
pub struct DriverView {
    pub options: OptionsView,
    pub probe: Probe,
    pub plan: PlanView,
    pub phase: EncodePhase,
    pub temp_path: Seq<char>,
    pub stream_sizes: Option<StreamSizes>,
}

impl View for EncodeDriver {
    type V = DriverView;

    open spec fn view(&self) -> DriverView {
        DriverView {
            options: self.options@,
            probe: self.probe,
            plan: self.plan@,
            phase: self.phase,
            temp_path: self.temp_path@,
            stream_sizes: self.stream_sizes,
        }
    }
}

/// The length of the progress bar for an input: its duration, but never zero.
pub open spec fn bar_length(probe: Probe) -> Seq<EffectView> {
    match probe.duration_micros {
        Some(micros) => seq![
            EffectView::Length(
                if micros > 1 {
                    micros
                } else {
                    1
                },
            ),
        ],
        None => Seq::empty(),
    }
}

impl DriverView {
    /// An encode that has not begun.
    pub open spec fn initial(options: OptionsView, probe: Probe, plan: PlanView) -> DriverView {
        DriverView {
            options,
            probe,
            plan,
            phase: EncodePhase::Start,
            temp_path: Seq::empty(),
            stream_sizes: None,
        }
    }

    /// The event can happen now: it tells the outcome of what was to be done.
    pub open spec fn accepts(self, event: EventView) -> bool {
        match event {
            EventView::Begin => self.phase == EncodePhase::Start,
            EventView::Compared(_) => self.phase == EncodePhase::Comparing,
            EventView::Lowered => self.phase == EncodePhase::Lowering,
            EventView::TempMade(temp) => self.phase == EncodePhase::MakingTemp && temp.output
                == self.plan.output && temp.path != self.plan.output,
            EventView::Spawned => self.phase == EncodePhase::Spawning,
            EventView::Progress { .. } => self.phase == EncodePhase::Encoding,
            EventView::Sizes(_) => self.phase == EncodePhase::Encoding,
            EventView::StreamEnded => self.phase == EncodePhase::Encoding,
            EventView::Exited => self.phase == EncodePhase::Exiting,
            EventView::Persisted => self.phase == EncodePhase::Persisting,
            EventView::Measured { .. } => self.phase == EncodePhase::Measuring,
            EventView::Failed => self.phase != EncodePhase::Start && self.phase
                != EncodePhase::Comparing && self.phase != EncodePhase::Finished && self.phase
                != EncodePhase::Failed,
        }
    }

    pub open spec fn at(self, phase: EncodePhase) -> DriverView {
        DriverView { phase, ..self }
    }

    /// Output and input may be what they are; the encode goes on.
    pub open spec fn compared(self) -> (DriverView, StepView) {
        (
            self.at(EncodePhase::Lowering),
            StepView {
                effects: (if self.plan.defaulting {
                    seq![EffectView::Announce(self.plan.output)]
                } else {
                    Seq::empty()
                }) + seq![EffectView::Message("encoding, "@)],
                task: TaskView::LowerArgs { video_only: self.options.video_only },
            },
        )
    }

    /// The encode ends with an error.
    pub open spec fn failed(self, effects: Seq<EffectView>, error: EncodeError) -> (
        DriverView,
        StepView,
    ) {
        (self.at(EncodePhase::Failed), StepView { effects, task: TaskView::Fail(error) })
    }

    /// The encoder has come that far, at that speed.
    pub open spec fn progress(self, fps: Seq<char>, running: bool, time_micros: u64) -> Seq<EffectView> {
        (if running {
            seq![EffectView::Message(fps + " fps, "@)]
        } else {
            Seq::empty()
        }) + (if self.probe.duration_micros is Some {
            seq![EffectView::Position(time_micros)]
        } else {
            Seq::empty()
        })
    }

    /// The encode after an event, and what it does then.
    pub open spec fn step(self, event: EventView) -> (DriverView, StepView) {
        match event {
            EventView::Begin => if self.options.overwrite_input {
                self.compared()
            } else {
                (
                    self.at(EncodePhase::Comparing),
                    StepView { effects: Seq::empty(), task: TaskView::CompareFiles },
                )
            },
            EventView::Compared(same) => if same == Some(true) {
                self.failed(Seq::empty(), EncodeError::SameFile)
            } else {
                self.compared()
            },
            EventView::Lowered => if contradictory(self.options, self.probe) {
                self.failed(bar_length(self.probe), EncodeError::DownmixOfCopy)
            } else {
                (
                    self.at(EncodePhase::MakingTemp),
                    StepView {
                        effects: bar_length(self.probe).push(
                            EffectView::LogStart(self.plan.log_name),
                        ),
                        task: TaskView::MakeTemp { parent: self.plan.temp_parent },
                    },
                )
            },
            EventView::TempMade(temp) => (
                DriverView { phase: EncodePhase::Spawning, temp_path: temp.path, ..self },
                StepView {
                    effects: Seq::empty(),
                    task: TaskView::Spawn {
                        path: temp.path,
                        has_audio: self.probe.has_audio,
                        audio_codec: self.options.audio_codec,
                        stereo_downmix: mixes_down(self.options, self.probe),
                    },
                },
            ),
            EventView::Spawned => (
                self.at(EncodePhase::Encoding),
                StepView { effects: Seq::empty(), task: TaskView::Poll },
            ),
            EventView::Progress { fps, running, time_micros } => (
                self,
                StepView {
                    effects: self.progress(fps, running, time_micros),
                    task: TaskView::Poll,
                },
            ),
            EventView::Sizes(sizes) => (
                DriverView { stream_sizes: Some(sizes), ..self },
                StepView { effects: Seq::empty(), task: TaskView::Poll },
            ),
            EventView::StreamEnded => (
                self.at(EncodePhase::Exiting),
                StepView { effects: Seq::empty(), task: TaskView::Wait },
            ),
            EventView::Exited => (
                self.at(EncodePhase::Persisting),
                StepView {
                    effects: seq![EffectView::FinishBar],
                    task: TaskView::Persist { from: self.temp_path, to: self.plan.output },
                },
            ),
            EventView::Persisted => (
                self.at(EncodePhase::Measuring),
                StepView { effects: Seq::empty(), task: TaskView::Measure },
            ),
            EventView::Measured { output_size, percent } => (
                self.at(EncodePhase::Finished),
                StepView {
                    effects: seq![
                        EffectView::Summary(
                            summary(
                                human_bytes(output_size),
                                percent,
                                named_parts(self.stream_sizes),
                            ),
                        ),
                    ],
                    task: TaskView::Done,
                },
            ),
            EventView::Failed => self.failed(Seq::empty(), EncodeError::TaskFailed),
        }
    }
}

fn push(effects: &mut Vec<Effect>, effect: Effect)
    ensures
        effect_views(final(effects)@) == effect_views(old(effects)@).push(effect@),
{
    let ghost view = effect@;
    effects.push(effect);
    assert(effect_views(effects@) =~= effect_views(old(effects)@).push(view));
}

fn no_effects() -> (r: Vec<Effect>)
    ensures
        effect_views(r@) == Seq::<EffectView>::empty(),
{
    let r: Vec<Effect> = Vec::new();
    assert(effect_views(r@) =~= Seq::<EffectView>::empty());
    r
}

impl EncodeDriver {
    /// An encode that has not begun.
    pub fn new(options: EncodeOptions, probe: Probe, plan: OutputPlan) -> (r: EncodeDriver)
        ensures
            r@ == DriverView::initial(options@, probe, plan@),
    {
        EncodeDriver {
            options,
            probe,
            plan,
            phase: EncodePhase::Start,
            temp_path: String::new(),
            stream_sizes: None,
        }
    }

    fn at(self, phase: EncodePhase) -> (r: EncodeDriver)
        ensures
            r@ == self@.at(phase),
    {
        EncodeDriver {
            options: self.options,
            probe: self.probe,
            plan: self.plan,
            phase,
            temp_path: self.temp_path,
            stream_sizes: self.stream_sizes,
        }
    }

    /// Output and input may be what they are; the encode goes on.
    fn go_on(self) -> (r: (EncodeDriver, EncodeStep))
        ensures
            (r.0@, r.1@) == self@.compared(),
    {
        let mut effects = no_effects();
        if self.plan.defaulting {
            push(&mut effects, Effect::Announce(self.plan.output.clone()));
        }
        push(&mut effects, Effect::Message("encoding, ".to_owned()));
        assert(effect_views(effects@) =~= self@.compared().1.effects);
        let task = EncodeTask::LowerArgs { video_only: self.options.video_only };
        (self.at(EncodePhase::Lowering), EncodeStep { effects, task })
    }

    /// The encode ends with an error.
    fn fail(self, effects: Vec<Effect>, error: EncodeError) -> (r: (EncodeDriver, EncodeStep))
        ensures
            (r.0@, r.1@) == self@.failed(effect_views(effects@), error),
    {
        (self.at(EncodePhase::Failed), EncodeStep { effects, task: EncodeTask::Fail(error) })
    }

    /// The arguments of the encoder are made.
    fn lowered(self) -> (r: (EncodeDriver, EncodeStep))
        ensures
            (r.0@, r.1@) == self@.step(EventView::Lowered),
    {
        let mut effects = no_effects();
        if let Some(micros) = self.probe.duration_micros {
            let length: u64 = if micros > 1 { micros } else { 1 };
            push(&mut effects, Effect::Length(length));
        }
        assert(effect_views(effects@) =~= bar_length(self.probe));
        let copies = match &self.options.audio_codec {
            Some(codec) => same_text(codec.as_str(), "copy"),
            None => false,
        };
        if stereo_downmix(&self.options, &self.probe) && copies {
            return self.fail(effects, EncodeError::DownmixOfCopy);
        }
        push(&mut effects, Effect::LogStart(self.plan.log_name.clone()));
        let task = EncodeTask::MakeTemp { parent: self.plan.temp_parent.clone() };
        (self.at(EncodePhase::MakingTemp), EncodeStep { effects, task })
    }

    /// Whether the event can happen now.
    pub fn can_accept(&self, event: &EncodeEvent) -> (r: bool)
        ensures
            r == self@.accepts(event@),
    {
        match event {
            EncodeEvent::Begin => self.phase == EncodePhase::Start,
            EncodeEvent::Compared(_) => self.phase == EncodePhase::Comparing,
            EncodeEvent::Lowered => self.phase == EncodePhase::Lowering,
            EncodeEvent::TempMade(temp) => self.phase == EncodePhase::MakingTemp && same_text(
                temp.output.as_str(),
                self.plan.output.as_str(),
            ) && !same_text(temp.path.as_str(), self.plan.output.as_str()),
            EncodeEvent::Spawned => self.phase == EncodePhase::Spawning,
            EncodeEvent::Progress { .. } => self.phase == EncodePhase::Encoding,
            EncodeEvent::Sizes(_) => self.phase == EncodePhase::Encoding,
            EncodeEvent::StreamEnded => self.phase == EncodePhase::Encoding,
            EncodeEvent::Exited => self.phase == EncodePhase::Exiting,
            EncodeEvent::Persisted => self.phase == EncodePhase::Persisting,
            EncodeEvent::Measured { .. } => self.phase == EncodePhase::Measuring,
            EncodeEvent::Failed => self.phase != EncodePhase::Start && self.phase
                != EncodePhase::Comparing && self.phase != EncodePhase::Finished && self.phase
                != EncodePhase::Failed,
        }
    }

    /// The encode after an event, and what it does then.
    pub fn step(self, event: EncodeEvent) -> (r: (EncodeDriver, EncodeStep))
        requires
            self@.accepts(event@),
        ensures
            (r.0@, r.1@) == self@.step(event@),
    {
        match event {
            EncodeEvent::Begin => if self.options.overwrite_input {
                self.go_on()
            } else {
                (
                    self.at(EncodePhase::Comparing),
                    EncodeStep { effects: no_effects(), task: EncodeTask::CompareFiles },
                )
            },
            EncodeEvent::Compared(same) => match same {
                Some(true) => self.fail(no_effects(), EncodeError::SameFile),
                _ => self.go_on(),
            },
            EncodeEvent::Lowered => self.lowered(),
            EncodeEvent::TempMade(temp) => {
                let task = EncodeTask::Spawn {
                    path: temp.path.clone(),
                    has_audio: self.probe.has_audio,
                    audio_codec: self.options.audio_codec.clone(),
                    stereo_downmix: stereo_downmix(&self.options, &self.probe),
                };
                (
                    EncodeDriver {
                        options: self.options,
                        probe: self.probe,
                        plan: self.plan,
                        phase: EncodePhase::Spawning,
                        temp_path: temp.path,
                        stream_sizes: self.stream_sizes,
                    },
                    EncodeStep { effects: no_effects(), task },
                )
            },
            EncodeEvent::Spawned => (
                self.at(EncodePhase::Encoding),
                EncodeStep { effects: no_effects(), task: EncodeTask::Poll },
            ),
            EncodeEvent::Progress { fps, running, time_micros } => {
                let ghost told = self@.progress(fps@, running, time_micros);
                let mut effects = no_effects();
                if running {
                    push(&mut effects, Effect::Message(fps.concat(" fps, ")));
                }
                if self.probe.duration_micros.is_some() {
                    push(&mut effects, Effect::Position(time_micros));
                }
                assert(effect_views(effects@) =~= told);
                (self, EncodeStep { effects, task: EncodeTask::Poll })
            },
            EncodeEvent::Sizes(sizes) => (
                EncodeDriver {
                    options: self.options,
                    probe: self.probe,
                    plan: self.plan,
                    phase: self.phase,
                    temp_path: self.temp_path,
                    stream_sizes: Some(sizes),
                },
                EncodeStep { effects: no_effects(), task: EncodeTask::Poll },
            ),
            EncodeEvent::StreamEnded => (
                self.at(EncodePhase::Exiting),
                EncodeStep { effects: no_effects(), task: EncodeTask::Wait },
            ),
            EncodeEvent::Exited => {
                let mut effects = no_effects();
                push(&mut effects, Effect::FinishBar);
                assert(effect_views(effects@) =~= seq![EffectView::FinishBar]);
                let task = EncodeTask::Persist {
                    from: self.temp_path.clone(),
                    to: self.plan.output.clone(),
                };
                (self.at(EncodePhase::Persisting), EncodeStep { effects, task })
            },
            EncodeEvent::Persisted => (
                self.at(EncodePhase::Measuring),
                EncodeStep { effects: no_effects(), task: EncodeTask::Measure },
            ),
            EncodeEvent::Measured { output_size, percent } => {
                let segments = encode_summary(output_size, percent.as_str(), self.stream_sizes);
                let ghost told = EffectView::Summary(segment_views(segments@));
                let mut effects = no_effects();
                push(&mut effects, Effect::Summary(segments));
                assert(effect_views(effects@) =~= seq![told]);
                (self.at(EncodePhase::Finished), EncodeStep { effects, task: EncodeTask::Done })
            },
            EncodeEvent::Failed => self.fail(no_effects(), EncodeError::TaskFailed),
        }
    }
}

} // verus!
