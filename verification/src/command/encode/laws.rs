//! What holds of an encode over many steps.
use vstd::prelude::*;

use crate::command::encode::driver::{
    bar_length, contradictory, DriverView, EffectView, EncodeError, EncodePhase, EventView,
    OptionsView, Probe, StepView, TaskView,
};
use crate::command::encode::{PlanView, TempOutputView};

verus! {

impl DriverView {
    /// The encode after those events.
    pub open spec fn after(self, events: Seq<EventView>) -> DriverView
        decreases events.len(),
    {
        if events.len() == 0 {
            self
        } else {
            self.after(events.drop_last()).step(events.last()).0
        }
    }

    /// Each of those events can happen when its turn comes.
    pub open spec fn can_see(self, events: Seq<EventView>) -> bool
        decreases events.len(),
    {
        events.len() > 0 ==> self.can_see(events.drop_last()) && self.after(
            events.drop_last(),
        ).accepts(events.last())
    }
}

/// The temporary directory has been asked for.
pub open spec fn writes(phase: EncodePhase) -> bool {
    ||| phase == EncodePhase::MakingTemp
    ||| phase == EncodePhase::Spawning
    ||| phase == EncodePhase::Encoding
    ||| phase == EncodePhase::Exiting
    ||| replaces(phase)
}

/// The output has been asked to be moved into place.
pub open spec fn replaces(phase: EncodePhase) -> bool {
    ||| phase == EncodePhase::Persisting
    ||| phase == EncodePhase::Measuring
    ||| phase == EncodePhase::Finished
}

/// Output and input were told apart, or nothing could be told.
pub open spec fn told_apart(events: Seq<EventView>) -> bool {
    exists|i: int|
        0 <= i < events.len() && (#[trigger] events[i] matches EventView::Compared(same) && same
            != Some(true))
}

/// Nothing is written, not even to a temporary file, before the options are
/// known to make sense and output and input are known not to be one file,
/// unless that is allowed.
pub proof fn checks_come_before_writing(
    options: OptionsView,
    probe: Probe,
    plan: PlanView,
    events: Seq<EventView>,
)
    requires
        DriverView::initial(options, probe, plan).can_see(events),
    ensures
        ({
            let now = DriverView::initial(options, probe, plan).after(events);
            &&& now.options == options
            &&& now.probe == probe
            &&& now.plan == plan
            &&& writes(now.phase) ==> !contradictory(options, probe)
            &&& writes(now.phase) || now.phase == EncodePhase::Lowering ==> options.overwrite_input
                || told_apart(events)
        }),
    decreases events.len(),
{
    if events.len() > 0 {
        let before = events.drop_last();
        checks_come_before_writing(options, probe, plan, before);
        if told_apart(before) {
            let i = choose|i: int|
                0 <= i < before.len() && (#[trigger] before[i] matches EventView::Compared(same)
                    && same != Some(true));
            assert(events[i] == before[i]);
        }
        assert(events[events.len() - 1] == events.last());
    }
}

/// The output is moved into place only when the encoder has told all that it
/// had to tell, and then has exited well.
pub proof fn only_a_complete_output_is_moved(
    options: OptionsView,
    probe: Probe,
    plan: PlanView,
    events: Seq<EventView>,
)
    requires
        DriverView::initial(options, probe, plan).can_see(events),
    ensures
        ({
            let phase = DriverView::initial(options, probe, plan).after(events).phase;
            &&& phase == EncodePhase::Exiting || replaces(phase) ==> exists|i: int|
                0 <= i < events.len() && #[trigger] events[i] is StreamEnded
            &&& replaces(phase) ==> exists|i: int, j: int|
                0 <= i < j < events.len() && #[trigger] events[i] is StreamEnded
                    && #[trigger] events[j] is Exited
        }),
    decreases events.len(),
{
    if events.len() > 0 {
        let before = events.drop_last();
        only_a_complete_output_is_moved(options, probe, plan, before);
        let phase = DriverView::initial(options, probe, plan).after(before).phase;
        assert(events[events.len() - 1] == events.last());
        if phase == EncodePhase::Exiting || replaces(phase) {
            let i = choose|i: int| 0 <= i < before.len() && #[trigger] before[i] is StreamEnded;
            assert(events[i] == before[i]);
        }
        if replaces(phase) {
            let (i, j) = choose|i: int, j: int|
                0 <= i < j < before.len() && #[trigger] before[i] is StreamEnded
                    && #[trigger] before[j] is Exited;
            assert(events[i] == before[i]);
            assert(events[j] == before[j]);
        }
    }
}

/// What is moved into place is what the encoder was told to write, and it is
/// moved to the output that was planned.
pub proof fn what_was_written_is_moved(
    options: OptionsView,
    probe: Probe,
    plan: PlanView,
    events: Seq<EventView>,
)
    requires
        DriverView::initial(options, probe, plan).can_see(events),
    ensures
        ({
            let now = DriverView::initial(options, probe, plan).after(events);
            &&& now.step(EventView::Exited).1.task == (TaskView::Persist {
                from: now.temp_path,
                to: plan.output,
            })
            &&& writes(now.phase) && now.phase != EncodePhase::MakingTemp ==> exists|i: int|
                0 <= i < events.len() && (#[trigger] events[i] matches EventView::TempMade(temp)
                    && temp.path == now.temp_path)
        }),
    decreases events.len(),
{
    checks_come_before_writing(options, probe, plan, events);
    if events.len() > 0 {
        let before = events.drop_last();
        what_was_written_is_moved(options, probe, plan, before);
        let then = DriverView::initial(options, probe, plan).after(before);
        assert(events[events.len() - 1] == events.last());
        if writes(then.phase) && then.phase != EncodePhase::MakingTemp {
            let i = choose|i: int|
                0 <= i < before.len() && (#[trigger] before[i] matches EventView::TempMade(temp)
                    && temp.path == then.temp_path);
            assert(events[i] == before[i]);
        }
    }
}

/// The encoder is never told to write to the output itself: that changes only
/// when it is complete.
pub proof fn output_is_never_written_in_place(
    options: OptionsView,
    probe: Probe,
    plan: PlanView,
    events: Seq<EventView>,
    event: EventView,
)
    requires
        DriverView::initial(options, probe, plan).can_see(events),
        DriverView::initial(options, probe, plan).after(events).accepts(event),
    ensures
        ({
            let now = DriverView::initial(options, probe, plan).after(events);
            &&& writes(now.phase) && now.phase != EncodePhase::MakingTemp ==> now.temp_path
                != plan.output
            &&& now.step(event).1.task matches TaskView::Spawn { path, .. } ==> path != plan.output
            &&& now.step(event).1.task matches TaskView::Persist { from, to } ==> from != to && to
                == plan.output
        }),
    decreases events.len(),
{
    checks_come_before_writing(options, probe, plan, events);
    if events.len() > 0 {
        output_is_never_written_in_place(
            options,
            probe,
            plan,
            events.drop_last(),
            events.last(),
        );
        checks_come_before_writing(options, probe, plan, events.drop_last());
    }
}

/// The output is asked to be moved into place by one step alone: that after
/// the encoder has exited.
pub proof fn moving_follows_the_exit(encode: DriverView, event: EventView)
    requires
        encode.accepts(event),
    ensures
        encode.step(event).1.task is Persist <==> event is Exited,
        encode.step(event).1.task is MakeTemp ==> event is Lowered,
{
}

/// Whatever fails ends the encode, and nothing is done after that.
pub proof fn failure_is_the_end(encode: DriverView, event: EventView)
    ensures
        encode.step(EventView::Failed).1 == (StepView {
            effects: Seq::empty(),
            task: TaskView::Fail(EncodeError::TaskFailed),
        }),
        encode.accepts(event) ==> (encode.step(event).1.task is Fail <==> encode.step(event).0.phase
            == EncodePhase::Failed),
        encode.phase == EncodePhase::Failed || encode.phase == EncodePhase::Finished
            ==> !encode.accepts(event),
{
}

/// An output that is the input ends the encode before anything is shown or
/// done, unless that is allowed.
pub proof fn same_file_is_refused(encode: DriverView)
    requires
        encode.phase == EncodePhase::Start,
        !encode.options.overwrite_input,
    ensures
        encode.step(EventView::Begin).1.task is CompareFiles,
        encode.step(EventView::Begin).0.step(EventView::Compared(Some(true))).1 == (StepView {
            effects: Seq::empty(),
            task: TaskView::Fail(EncodeError::SameFile),
        }),
{
}

/// The encoder is never asked to mix down audio that it is to copy.
pub proof fn copied_audio_is_not_mixed_down(encode: DriverView, temp: TempOutputView)
    requires
        !contradictory(encode.options, encode.probe),
    ensures
        encode.step(EventView::TempMade(temp)).1.task matches TaskView::Spawn {
            audio_codec,
            stereo_downmix,
            ..
        } && !(stereo_downmix && audio_codec == Some("copy"@)),
{
}

/// The progress bar never has the length zero.
pub proof fn bar_has_a_length(probe: Probe)
    ensures
        bar_length(probe).len() > 0 ==> (bar_length(probe)[0] matches EffectView::Length(length)
            && length >= 1),
{
}

} // verus!
