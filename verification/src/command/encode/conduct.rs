//! What an encode shows and asks for in each situation, word for word.
use vstd::prelude::*;

use crate::command::encode::driver::{
    contradictory, error_text, mixes_down, DriverView, Effect, EffectView, EncodeDriver,
    EncodeError, EncodeEvent, EncodeOptions, EncodePhase, EncodeStep, EncodeTask, EventView,
    OptionsView, Probe, TaskView,
};
use crate::command::encode::running::{
    EncodeRun, EncodeRunView, RunDriver, RunEvent, RunEventView, RunStep, RunStepView, RunTask,
    RunTaskView, RunView,
};
use crate::command::encode::summary::{
    human_bytes, named_parts, summary, Part, Segment, SegmentView,
};
use crate::command::encode::{Encoder, OutputPlan, PlanView, StreamSizes, TempOutput};

verus! {

/// Audio is mixed down where that is asked for and the input has more than
/// three channels: four and every number above, but not three nor any number
/// below, nor an unknown one. More channels never undo it.
pub proof fn more_than_three_channels_are_mixed_down(options: OptionsView, probe: Probe, c: i64, d: i64)
    ensures
        options.downmix_to_stereo && c > 3 ==> mixes_down(
            options,
            Probe { max_audio_channels: Some(c), ..probe },
        ),
        c <= 3 ==> !mixes_down(options, Probe { max_audio_channels: Some(c), ..probe }),
        !options.downmix_to_stereo ==> !mixes_down(options, probe),
        probe.max_audio_channels is None ==> !mixes_down(options, probe),
        c <= d && mixes_down(options, Probe { max_audio_channels: Some(c), ..probe }) ==> mixes_down(
            options,
            Probe { max_audio_channels: Some(d), ..probe },
        ),
{
}

/// The options contradict each other where audio of more than three channels is
/// to be mixed down and to be copied.
pub proof fn copying_contradicts_mixing_down(options: OptionsView, probe: Probe)
    ensures
        contradictory(options, probe) <==> {
            &&& options.downmix_to_stereo
            &&& probe.max_audio_channels matches Some(c) && c > 3
            &&& options.audio_codec == Some("copy"@)
        },
{
}

/// The texts of the errors.
pub proof fn encode_errors_in_words()
    ensures
        error_text(EncodeError::SameFile) == Some(
            "Input and Output are specified as the same file. Not proceeding. Pass in `--overwrite-input` to allow this."@,
        ),
        error_text(EncodeError::DownmixOfCopy) == Some(
            "--stereo-downmix cannot be used with --acodec copy"@,
        ),
        error_text(EncodeError::TaskFailed) is None,
{
}

/// The sizes that the encoder told last, if it told any.
pub open spec fn last_sizes(events: Seq<EventView>) -> Option<StreamSizes>
    decreases events.len(),
{
    if events.len() == 0 {
        None
    } else {
        match events.last() {
            EventView::Sizes(sizes) => Some(sizes),
            _ => last_sizes(events.drop_last()),
        }
    }
}

/// The path of the temporary output that was made last.
pub open spec fn last_temp_path(events: Seq<EventView>) -> Seq<char>
    decreases events.len(),
{
    if events.len() == 0 {
        Seq::empty()
    } else {
        match events.last() {
            EventView::TempMade(temp) => temp.path,
            _ => last_temp_path(events.drop_last()),
        }
    }
}

/// An encode never forgets what it was begun with, nor what it was told of
/// sizes and of the temporary output.
pub proof fn nothing_is_forgotten(
    options: OptionsView,
    probe: Probe,
    plan: PlanView,
    events: Seq<EventView>,
)
    ensures
        ({
            let now = DriverView::initial(options, probe, plan).after(events);
            &&& now.options == options
            &&& now.probe == probe
            &&& now.plan == plan
            &&& now.stream_sizes == last_sizes(events)
            &&& now.temp_path == last_temp_path(events)
        }),
    decreases events.len(),
{
    if events.len() > 0 {
        nothing_is_forgotten(options, probe, plan, events.drop_last());
    }
}

/// What an encode asks for, whatever has happened since it was begun, follows
/// from its options, from what is known of the input, from the plan and from
/// what happened last: the encoder is given the temporary path, the audio codec
/// that was asked for, whether there is audio, and whether to mix it down.
pub proof fn tasks_follow_from_the_inputs(
    options: OptionsView,
    probe: Probe,
    plan: PlanView,
    events: Seq<EventView>,
    event: EventView,
)
    ensures
        ({
            let begun = DriverView::initial(options, probe, plan);
            let task = begun.after(events).step(event).1.task;
            let many = probe.max_audio_channels matches Some(c) && c > 3;
            match event {
                EventView::Begin => if options.overwrite_input {
                    task == TaskView::LowerArgs { video_only: options.video_only }
                } else {
                    task == TaskView::CompareFiles
                },
                EventView::Compared(same) => if same == Some(true) {
                    task == TaskView::Fail(EncodeError::SameFile)
                } else {
                    task == TaskView::LowerArgs { video_only: options.video_only }
                },
                EventView::Lowered => if options.downmix_to_stereo && many && options.audio_codec
                    == Some("copy"@) {
                    task == TaskView::Fail(EncodeError::DownmixOfCopy)
                } else {
                    task == TaskView::MakeTemp { parent: plan.temp_parent }
                },
                EventView::TempMade(temp) => task == TaskView::Spawn {
                    path: temp.path,
                    has_audio: probe.has_audio,
                    audio_codec: options.audio_codec,
                    stereo_downmix: options.downmix_to_stereo && many,
                },
                EventView::Spawned => task == TaskView::Poll,
                EventView::Progress { .. } => task == TaskView::Poll,
                EventView::Sizes(_) => task == TaskView::Poll,
                EventView::StreamEnded => task == TaskView::Wait,
                EventView::Exited => task == TaskView::Persist {
                    from: last_temp_path(events),
                    to: plan.output,
                },
                EventView::Persisted => task == TaskView::Measure,
                EventView::Measured { .. } => task == TaskView::Done,
                EventView::Failed => task == TaskView::Fail(EncodeError::TaskFailed),
            }
        }),
{
    nothing_is_forgotten(options, probe, plan, events);
}

/// Whenever the encoder is to be spawned, it is told that there is audio just
/// where the input has audio, and is given the codec that was asked for and the
/// temporary path; nothing else spawns it.
pub proof fn encoder_is_told_of_the_audio(
    options: OptionsView,
    probe: Probe,
    plan: PlanView,
    events: Seq<EventView>,
    event: EventView,
)
    ensures
        DriverView::initial(options, probe, plan).after(events).step(event).1.task
            matches TaskView::Spawn { path, has_audio, audio_codec, stereo_downmix } ==> {
            &&& has_audio == probe.has_audio
            &&& audio_codec == options.audio_codec
            &&& event matches EventView::TempMade(temp) && path == temp.path
            &&& stereo_downmix ==> options.downmix_to_stereo
        },
{
    tasks_follow_from_the_inputs(options, probe, plan, events, event);
}

/// What an encode shows. A default output is named before anything else, and
/// the bar says "encoding, " until there is a speed to show. The bar is as long
/// as the input in microseconds, but never of length zero, and moves only where
/// that is known. It is completed when the encoder has exited, and the summary
/// comes last.
pub proof fn effects_follow_from_the_inputs(
    options: OptionsView,
    probe: Probe,
    plan: PlanView,
    events: Seq<EventView>,
    event: EventView,
)
    ensures
        ({
            let begun = DriverView::initial(options, probe, plan);
            let effects = begun.after(events).step(event).1.effects;
            let opening = if plan.defaulting {
                seq![EffectView::Announce(plan.output), EffectView::Message("encoding, "@)]
            } else {
                seq![EffectView::Message("encoding, "@)]
            };
            let many = probe.max_audio_channels matches Some(c) && c > 3;
            match event {
                EventView::Begin => if options.overwrite_input {
                    effects == opening
                } else {
                    effects.len() == 0
                },
                EventView::Compared(same) => if same == Some(true) {
                    effects.len() == 0
                } else {
                    effects == opening
                },
                EventView::Lowered => {
                    let fails = options.downmix_to_stereo && many && options.audio_codec == Some(
                        "copy"@,
                    );
                    let shown = effects.len() as int;
                    &&& shown == (if probe.duration_micros is Some {
                        1int
                    } else {
                        0int
                    }) + (if fails {
                        0int
                    } else {
                        1int
                    })
                    &&& probe.duration_micros matches Some(micros) ==> (effects[0]
                        matches EffectView::Length(length) && length >= 1 && length >= micros && (
                    length == micros || length == 1))
                    &&& !fails ==> effects[shown - 1] == EffectView::LogStart(plan.log_name)
                },
                EventView::Progress { fps, running, time_micros } => {
                    let moves = probe.duration_micros is Some;
                    &&& running && moves ==> effects == seq![
                        EffectView::Message(fps + " fps, "@),
                        EffectView::Position(time_micros),
                    ]
                    &&& running && !moves ==> effects == seq![EffectView::Message(fps + " fps, "@)]
                    &&& !running && moves ==> effects == seq![EffectView::Position(time_micros)]
                    &&& !running && !moves ==> effects.len() == 0
                },
                EventView::Exited => effects == seq![EffectView::FinishBar],
                EventView::Measured { output_size, percent } => effects == seq![
                    EffectView::Summary(
                        summary(human_bytes(output_size), percent, named_parts(last_sizes(events))),
                    ),
                ],
                _ => effects.len() == 0,
            }
        }),
{
    nothing_is_forgotten(options, probe, plan, events);
    let now = DriverView::initial(options, probe, plan).after(events);
    let effects = now.step(event).1.effects;
    if plan.defaulting {
        assert(now.compared().1.effects =~= seq![
            EffectView::Announce(plan.output),
            EffectView::Message("encoding, "@),
        ]);
    } else {
        assert(now.compared().1.effects =~= seq![EffectView::Message("encoding, "@)]);
    }
    if let EventView::Progress { fps, running, time_micros } = event {
        let moves = probe.duration_micros is Some;
        if running && moves {
            assert(effects =~= seq![
                EffectView::Message(fps + " fps, "@),
                EffectView::Position(time_micros),
            ]);
        } else if running {
            assert(effects =~= seq![EffectView::Message(fps + " fps, "@)]);
        } else if moves {
            assert(effects =~= seq![EffectView::Position(time_micros)]);
        }
    }
}

/// Whatever an encode asks to be done, its outcome can be told, and so can its
/// failure, except that files always compare; a temporary output can be told
/// that is the planned one at another place. When the encode has ended, nothing
/// can be told.
pub proof fn every_outcome_can_be_told(
    encode: DriverView,
    event: EventView,
    outcome: EventView,
)
    requires
        encode.accepts(event),
    ensures
        ({
            let (next, step) = encode.step(event);
            match step.task {
                TaskView::CompareFiles => outcome is Compared ==> next.accepts(outcome),
                TaskView::LowerArgs { .. } => outcome is Lowered || outcome is Failed
                    ==> next.accepts(outcome),
                TaskView::MakeTemp { .. } => {
                    &&& outcome is Failed ==> next.accepts(outcome)
                    &&& outcome matches EventView::TempMade(temp) ==> (next.accepts(outcome)
                        <==> temp.output == encode.plan.output && temp.path != encode.plan.output)
                },
                TaskView::Spawn { .. } => outcome is Spawned || outcome is Failed ==> next.accepts(
                    outcome,
                ),
                TaskView::Poll => outcome is Progress || outcome is Sizes || outcome is StreamEnded
                    || outcome is Failed ==> next.accepts(outcome),
                TaskView::Wait => outcome is Exited || outcome is Failed ==> next.accepts(outcome),
                TaskView::Persist { .. } => outcome is Persisted || outcome is Failed
                    ==> next.accepts(outcome),
                TaskView::Measure => outcome is Measured || outcome is Failed ==> next.accepts(
                    outcome,
                ),
                TaskView::Done => !next.accepts(outcome),
                TaskView::Fail(_) => !next.accepts(outcome),
            }
        }),
{
}

/// An encode can begin.
pub proof fn encode_can_begin(options: OptionsView, probe: Probe, plan: PlanView)
    ensures
        DriverView::initial(options, probe, plan).accepts(EventView::Begin),
        DriverView::initial(options, probe, plan).phase == EncodePhase::Start,
{
}

/// What a run shows and asks for follows from what it was begun with and from
/// what happened last. It logs the name of the output first. What the encoder
/// tells is shown only where it is worth it: the speed, then the place where the
/// length of the input is known, and then it is handed on with the output. The
/// bar is completed when the encoder has exited.
pub proof fn steps_follow_from_the_inputs(
    input: Seq<char>,
    output: Seq<char>,
    log_name: Seq<char>,
    has_duration: bool,
    events: Seq<RunEventView>,
    event: RunEventView,
)
    ensures
        ({
            let begun = RunView::initial(input, output, log_name, has_duration);
            let RunStepView { effects, task } = begun.after(events).step(event).1;
            match event {
                RunEventView::Begin => effects == seq![EffectView::LogStart(log_name)] && task
                    == RunTaskView::LowerArgs,
                RunEventView::Lowered => effects.len() == 0 && task == RunTaskView::Spawn,
                RunEventView::Spawned => effects.len() == 0 && task == RunTaskView::Poll,
                RunEventView::Told(None) => effects.len() == 0 && task == RunTaskView::Poll,
                RunEventView::Told(Some((fps, time))) => {
                    let message = EffectView::Message(fps + " fps, "@);
                    let handed_on = EffectView::Notify { fps, time_micros: time, output };
                    &&& task == RunTaskView::Poll
                    &&& has_duration ==> effects == seq![
                        message,
                        EffectView::Position(time),
                        handed_on,
                    ]
                    &&& !has_duration ==> effects == seq![message, handed_on]
                },
                RunEventView::StreamEnded(_) => effects.len() == 0 && task == RunTaskView::Wait,
                RunEventView::Exited => effects == seq![EffectView::FinishBar] && task
                    == RunTaskView::Finalize,
                RunEventView::Finalized => effects.len() == 0 && task == RunTaskView::Done(
                    EncodeRunView { input, output, stream_sizes: last_told_sizes(events) },
                ),
                RunEventView::Failed => effects.len() == 0 && task == RunTaskView::Fail,
            }
        }),
{
    run_forgets_nothing(input, output, log_name, has_duration, events);
    let now = RunView::initial(input, output, log_name, has_duration).after(events);
    if let RunEventView::Told(Some((fps, time))) = event {
        let message = EffectView::Message(fps + " fps, "@);
        let handed_on = EffectView::Notify { fps, time_micros: time, output };
        let effects = now.step(event).1.effects;
        if has_duration {
            assert(effects =~= seq![message, EffectView::Position(time), handed_on]);
        } else {
            assert(effects =~= seq![message, handed_on]);
        }
    }
}

/// The sizes that the encoder told when it had no more to tell.
pub open spec fn last_told_sizes(events: Seq<RunEventView>) -> Option<StreamSizes>
    decreases events.len(),
{
    if events.len() == 0 {
        None
    } else {
        match events.last() {
            RunEventView::StreamEnded(sizes) => sizes,
            _ => last_told_sizes(events.drop_last()),
        }
    }
}

proof fn run_forgets_nothing(
    input: Seq<char>,
    output: Seq<char>,
    log_name: Seq<char>,
    has_duration: bool,
    events: Seq<RunEventView>,
)
    ensures
        ({
            let now = RunView::initial(input, output, log_name, has_duration).after(events);
            &&& now.input == input
            &&& now.output == output
            &&& now.log_name == log_name
            &&& now.has_duration == has_duration
            &&& now.stream_sizes == last_told_sizes(events)
        }),
    decreases events.len(),
{
    if events.len() > 0 {
        run_forgets_nothing(input, output, log_name, has_duration, events.drop_last());
    }
}

/// A run can begin, and whatever it asks to be done, its outcome and its failure
/// can be told. When the run has ended, nothing can.
pub proof fn every_outcome_of_a_run_can_be_told(run: RunView, event: RunEventView, outcome: RunEventView)
    requires
        run.accepts(event),
    ensures
        RunView::initial(run.input, run.output, run.log_name, run.has_duration).accepts(
            RunEventView::Begin,
        ),
        ({
            let (next, step) = run.step(event);
            match step.task {
                RunTaskView::LowerArgs => outcome is Lowered || outcome is Failed ==> next.accepts(
                    outcome,
                ),
                RunTaskView::Spawn => outcome is Spawned || outcome is Failed ==> next.accepts(
                    outcome,
                ),
                RunTaskView::Poll => outcome is Told || outcome is StreamEnded || outcome is Failed
                    ==> next.accepts(outcome),
                RunTaskView::Wait => outcome is Exited || outcome is Failed ==> next.accepts(outcome),
                RunTaskView::Finalize => outcome is Finalized || outcome is Failed ==> next.accepts(
                    outcome,
                ),
                RunTaskView::Done(_) => !next.accepts(outcome),
                RunTaskView::Fail => !next.accepts(outcome),
            }
        }),
{
}

/// What an encode is told and begun with holds what its fields hold.
pub proof fn events_hold_their_fields(
    event: EncodeEvent,
    options: EncodeOptions,
    plan: OutputPlan,
    temp: TempOutput,
    encoder: Encoder,
    driver: EncodeDriver,
)
    ensures
        event is Begin ==> event@ is Begin,
        event is Lowered ==> event@ is Lowered,
        event is Spawned ==> event@ is Spawned,
        event is StreamEnded ==> event@ is StreamEnded,
        event is Exited ==> event@ is Exited,
        event is Persisted ==> event@ is Persisted,
        event is Failed ==> event@ is Failed,
        event matches EncodeEvent::Compared(same) ==> event@ == EventView::Compared(same),
        event matches EncodeEvent::TempMade(temp) ==> event@ == EventView::TempMade(temp@),
        event matches EncodeEvent::Sizes(sizes) ==> event@ == EventView::Sizes(sizes),
        event matches EncodeEvent::Progress { fps, running, time_micros } ==> event@ == (
        EventView::Progress { fps: fps@, running, time_micros }),
        event matches EncodeEvent::Measured { output_size, percent } ==> event@ == (
        EventView::Measured { output_size, percent: percent@ }),
        options.audio_codec matches Some(codec) ==> options@.audio_codec == Some(codec@),
        options.audio_codec is None ==> options@.audio_codec is None,
        options@.downmix_to_stereo == options.downmix_to_stereo && options@.video_only
            == options.video_only && options@.overwrite_input == options.overwrite_input,
        plan@.output == plan.output@ && plan@.defaulting == plan.defaulting && plan@.log_name
            == plan.log_name@ && plan@.temp_parent == plan.temp_parent@,
        temp@.path == temp.path@ && temp@.output == temp.output@,
        encoder@.pre_extension == encoder.pre_extension@ && encoder@.image_ext
            == encoder.image_ext@,
        driver@.options == driver.options@ && driver@.probe == driver.probe && driver@.plan
            == driver.plan@ && driver@.phase == driver.phase,
        driver@.temp_path == driver.temp_path@ && driver@.stream_sizes == driver.stream_sizes,
{
}

/// What an encode shows and asks for holds what its fields hold.
pub proof fn steps_hold_their_fields(step: EncodeStep, effect: Effect, task: EncodeTask, segment: Segment, part: Part, i: int)
    ensures
        step@.task == step.task@ && step@.effects.len() == step.effects@.len(),
        0 <= i < step.effects@.len() ==> step@.effects[i] == step.effects@[i]@,
        effect matches Effect::Announce(output) ==> effect@ == EffectView::Announce(output@),
        effect matches Effect::Message(text) ==> effect@ == EffectView::Message(text@),
        effect matches Effect::Length(length) ==> effect@ == EffectView::Length(length),
        effect matches Effect::LogStart(name) ==> effect@ == EffectView::LogStart(name@),
        effect matches Effect::Position(position) ==> effect@ == EffectView::Position(position),
        effect matches Effect::Notify { fps, time_micros, output } ==> effect@ == (
        EffectView::Notify { fps: fps@, time_micros, output: output@ }),
        effect is FinishBar ==> effect@ is FinishBar,
        effect matches Effect::Summary(segments) ==> (effect@ matches EffectView::Summary(views)
            && views.len() == segments@.len() && (0 <= i < views.len() ==> views[i]
            == segments@[i]@)),
        segment@ == (SegmentView { look: segment.look, text: segment.text@ }),
        part@.label == part.label@ && part@.size == part.size@,
        task is CompareFiles ==> task@ is CompareFiles,
        task is Poll ==> task@ is Poll,
        task is Wait ==> task@ is Wait,
        task is Measure ==> task@ is Measure,
        task is Done ==> task@ is Done,
        task matches EncodeTask::LowerArgs { video_only } ==> task@ == (TaskView::LowerArgs {
            video_only,
        }),
        task matches EncodeTask::MakeTemp { parent } ==> task@ == (TaskView::MakeTemp {
            parent: parent@,
        }),
        task matches EncodeTask::Spawn { path, has_audio, audio_codec, stereo_downmix } ==> task@
            == (TaskView::Spawn {
            path: path@,
            has_audio,
            audio_codec: match audio_codec {
                Some(codec) => Some(codec@),
                None => None,
            },
            stereo_downmix,
        }),
        task matches EncodeTask::Persist { from, to } ==> task@ == (TaskView::Persist {
            from: from@,
            to: to@,
        }),
        task matches EncodeTask::Fail(error) ==> task@ == TaskView::Fail(error),
{
}

/// What a run is, is told, shows and asks for holds what its fields hold.
pub proof fn runs_hold_their_fields(
    event: RunEvent,
    step: RunStep,
    task: RunTask,
    run: EncodeRun,
    driver: RunDriver,
    i: int,
)
    ensures
        event is Begin ==> event@ is Begin,
        event is Lowered ==> event@ is Lowered,
        event is Spawned ==> event@ is Spawned,
        event is Exited ==> event@ is Exited,
        event is Finalized ==> event@ is Finalized,
        event is Failed ==> event@ is Failed,
        event matches RunEvent::Told(Some(update)) ==> event@ == RunEventView::Told(
            Some((update.fps@, update.time_micros)),
        ),
        event matches RunEvent::Told(None) ==> event@ == RunEventView::Told(None),
        event matches RunEvent::StreamEnded(sizes) ==> event@ == RunEventView::StreamEnded(sizes),
        step@.task == step.task@ && step@.effects.len() == step.effects@.len(),
        0 <= i < step.effects@.len() ==> step@.effects[i] == step.effects@[i]@,
        task is LowerArgs ==> task@ is LowerArgs,
        task is Spawn ==> task@ is Spawn,
        task is Poll ==> task@ is Poll,
        task is Wait ==> task@ is Wait,
        task is Finalize ==> task@ is Finalize,
        task is Fail ==> task@ is Fail,
        task matches RunTask::Done(run) ==> task@ == RunTaskView::Done(run@),
        run@.input == run.input@ && run@.output == run.output.path@ && run@.stream_sizes
            == run.stream_sizes,
        driver@.input == driver.input@ && driver@.output == driver.output@ && driver@.log_name
            == driver.log_name@,
        driver@.has_duration == driver.has_duration && driver@.phase == driver.phase
            && driver@.stream_sizes == driver.stream_sizes,
{
}

} // verus!
