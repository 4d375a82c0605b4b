use ab_av1::command::encode::driver::{
    stereo_downmix, Effect, EncodeDriver, EncodeError, EncodeEvent, EncodeOptions, EncodePhase,
    EncodeStep, EncodeTask, Probe,
};
use ab_av1::command::encode::running::{
    BarUpdate, CompletedOutput, EncodeRun, RunDriver, RunEvent, RunStep, RunTask,
};
use ab_av1::command::encode::summary::{
    encode_summary, encoding_notice, notice_of, summary_of, Look, Part, Segment,
};
use ab_av1::command::encode::{
    default_output_ext, default_output_name, default_output_suffix, log_name, output_ext_for,
    parent_or_dot, temp_dir_error, temp_parent, Encoder, OutputPlan, StreamSizes, TempOutput,
};
use std::path::Path;

fn svtav1() -> Encoder {
    Encoder { pre_extension: "av1".into(), image_ext: "avif".into() }
}

fn test_probe() -> Probe {
    Probe {
        duration_micros: Some(1_000_000),
        has_audio: true,
        max_audio_channels: Some(6),
    }
}

fn options() -> EncodeOptions {
    EncodeOptions {
        audio_codec: Some("copy".into()),
        downmix_to_stereo: true,
        video_only: false,
        overwrite_input: false,
    }
}

fn plan(output: Option<&str>) -> OutputPlan {
    OutputPlan::new(output.map(|o| o.to_string()), "dir/vid.mkv", &svtav1(), false)
}

fn step(driver: EncodeDriver, event: EncodeEvent) -> (EncodeDriver, EncodeStep) {
    assert!(driver.can_accept(&event), "{event:?} at {:?}", driver.phase);
    driver.step(event)
}

fn quiet(task: EncodeTask) -> EncodeStep {
    EncodeStep { effects: vec![], task }
}

#[test]
fn default_output_extensions() {
    let encoder = svtav1();
    for (input, ext) in [
        ("vid.mp4", "mp4"),
        ("dir.mkv/vid.mp4", "mp4"),
        ("vid.mkv", "mkv"),
        ("vid.webm", "mkv"),
        ("vid.MP4", "mkv"),
        ("vid", "mkv"),
        (".mp4", "mkv"),
        ("vid.mp4/", "mp4"),
        ("vid.mp4/.", "mp4"),
        ("vid.mp4/..", "mkv"),
        ("", "mkv"),
    ] {
        assert_eq!(default_output_ext(input, &encoder, false), ext, "{input}");
        assert_eq!(default_output_ext(input, &encoder, true), "avif");
    }
    assert_eq!(output_ext_for(Some("mp4"), &encoder, false), "mp4");
    assert_eq!(output_ext_for(None, &encoder, false), "mkv");
    assert_eq!(output_ext_for(Some("mp4"), &encoder, true), "avif");
}

#[test]
fn default_output_names() {
    let encoder = svtav1();
    for (input, output) in [
        ("vid.mkv", "vid.av1.mkv"),
        ("vid.mp4", "vid.av1.mp4"),
        ("vid.av1.mkv", "vid.av1.av1.mkv"),
        ("/a.b/vid", "/a.b/vid.av1.mkv"),
        ("a/.hidden", "a/.hidden.av1.mkv"),
        ("a/vid.", "a/vid.av1.mkv"),
        ("a/at 10:30.mp4", "a/at 10:30.av1.mp4"),
        ("..", ".."),
        ("", ""),
    ] {
        assert_eq!(default_output_name(input, &encoder, false), output);
    }
    assert_eq!(default_output_name("pic.png", &encoder, true), "pic.av1.avif");
    assert_eq!(default_output_suffix(Some("mp4"), &encoder, false), "av1.mp4");
    assert_eq!(default_output_suffix(None, &encoder, true), "av1.avif");
}

#[test]
fn default_output_of_odd_names_is_another_path() {
    let encoder = svtav1();
    for input in ["..mp4", "dir/..mp4", "vid.mp4/", "vid.mp4/.", "C:vid.mp4", r"\\s\h\vid.mp4", "//a"] {
        assert_ne!(default_output_name(input, &encoder, false), input);
    }
    for input in ["vid.mp4/", "vid.mp4//.", "./vid.mp4"] {
        let output = default_output_name(input, &encoder, false);
        let output = Path::new(&output);
        assert_eq!(output.parent(), Path::new(input).parent());
        assert_eq!(output.file_name().and_then(|n| n.to_str()), Some("vid.av1.mp4"));
    }
    if std::path::MAIN_SEPARATOR == '/' {
        assert_eq!(default_output_name(r"C:\d.x\vid", &encoder, false), r"C:\d.av1.mkv");
        assert_eq!(default_output_ext(r"C:\d.mp4", &encoder, false), "mp4");
        assert_eq!(default_output_name("//a.mkv", &encoder, false), "//a.av1.mkv");
        assert_eq!(default_output_name(r"\\?\C:/d/a.mp4", &encoder, false), r"\\?\C:/d/a.av1.mp4");
    }
}

#[test]
fn log_names() {
    assert_eq!(log_name("dir/out.mkv"), "out.mkv");
    assert_eq!(log_name("dir/out.mkv/"), "out.mkv");
    assert_eq!(log_name(".."), "");
}

#[test]
fn plan_without_output_uses_the_default() {
    let defaulted = plan(None);
    assert!(defaulted.defaulting);
    assert_eq!(defaulted.output, "dir/vid.av1.mkv");
    assert_eq!(defaulted.log_name, "vid.av1.mkv");
    assert_eq!(defaulted.temp_parent, "dir");

    let given = plan(Some("out.mkv"));
    assert!(!given.defaulting);
    assert_eq!(given.output, "out.mkv");
    assert_eq!(given.temp_parent, ".");
    assert_eq!(plan(Some("/")).log_name, "");
}

#[test]
fn temp_parents() {
    for (output, parent) in
        [
            ("out.mkv", "."),
            ("/out.mkv", "/"),
            ("a/b/out.mkv", "a/b"),
            ("./out.mkv", "."),
            ("../out.mkv/", ".."),
        ]
    {
        assert_eq!(temp_parent(output), parent);
    }
    assert_eq!(parent_or_dot(None), ".");
    assert_eq!(parent_or_dot(Some(String::new())), ".");
    assert_eq!(parent_or_dot(Some("a".to_string())), "a");
    assert_eq!(temp_dir_error("a"), "failed to create temporary output directory in a");
}

#[test]
fn temp_output_keeps_filename_in_output_parent_temp_dir() {
    let temp_dir = tempfile::tempdir().expect("temp dir");
    let output = temp_dir.path().join("video.av1.mkv");
    let text = output.to_str().expect("text");

    let dir = tempfile::tempdir_in(temp_parent(text)).expect("temp output");
    let temp_output = TempOutput::new(text, dir.path().to_str().expect("text"));
    let path = Path::new(temp_output.path());

    assert_eq!(path.file_name(), output.file_name());
    assert_ne!(path, output);
    assert_eq!(path.parent().and_then(Path::parent), Some(temp_dir.path()));
}

#[test]
fn temp_output_never_is_the_output() {
    for output in ["out.mkv", "C:out.mkv", r"C:\d\out.mkv", r"\\s\h\out.mkv", "//s/h/out.mkv", "a/"] {
        let temp = TempOutput::new(output, "dir/.tmp1");
        assert_ne!(temp.path(), output);
        assert_eq!(Path::new(temp.path()).file_name(), Path::new(output).file_name());
    }
    assert_eq!(Path::new(TempOutput::new("..", "dir").path()), Path::new("dir"));
}

#[test]
fn temp_output_tells_where_it_could_not_go() {
    let temp = TempOutput::new("a/out.mkv", "a/.tmp1");
    assert_eq!(temp.path(), "a/.tmp1/out.mkv");
    assert_eq!(
        temp.persist_error(),
        "failed to move encoded output from a/.tmp1/out.mkv to a/out.mkv"
    );
}

#[test]
fn same_file_validation_failure_does_not_delete_input() {
    let mut options = options();
    options.audio_codec = None;
    options.downmix_to_stereo = false;
    let driver = EncodeDriver::new(options, test_probe(), plan(Some("dir/vid.mkv")));

    let (driver, compare) = step(driver, EncodeEvent::Begin);
    assert_eq!(compare, quiet(EncodeTask::CompareFiles));
    let (driver, failed) = step(driver, EncodeEvent::Compared(Some(true)));

    assert_eq!(failed, quiet(EncodeTask::Fail(EncodeError::SameFile)));
    assert!(
        EncodeError::SameFile
            .message()
            .expect("same file validation should fail")
            .contains("Input and Output are specified as the same file")
    );
    assert_eq!(driver.phase, EncodePhase::Failed);
    assert!(!driver.can_accept(&EncodeEvent::Lowered));
}

#[test]
fn validation_failure_does_not_delete_existing_output() {
    let driver = EncodeDriver::new(options(), test_probe(), plan(Some("out.mkv")));
    let (driver, _) = step(driver, EncodeEvent::Begin);
    let (driver, lower) = step(driver, EncodeEvent::Compared(Some(false)));
    assert_eq!(lower.task, EncodeTask::LowerArgs { video_only: false });
    let (driver, failed) = step(driver, EncodeEvent::Lowered);

    assert_eq!(
        failed,
        EncodeStep {
            effects: vec![Effect::Length(1_000_000)],
            task: EncodeTask::Fail(EncodeError::DownmixOfCopy),
        }
    );
    assert!(
        EncodeError::DownmixOfCopy
            .message()
            .expect("validation should fail")
            .contains("--stereo-downmix cannot be used with --acodec copy")
    );
    assert!(!driver.can_accept(&EncodeEvent::Persisted));
}

#[test]
fn same_file_message() {
    assert_eq!(
        EncodeError::SameFile.message(),
        Some(
            "Input and Output are specified as the same file. Not proceeding. \
             Pass in `--overwrite-input` to allow this."
        )
    );
    assert_eq!(EncodeError::TaskFailed.message(), None);
}

#[test]
fn files_that_cannot_be_compared_count_as_different() {
    let driver = EncodeDriver::new(options(), test_probe(), plan(Some("out.mkv")));
    let (driver, _) = step(driver, EncodeEvent::Begin);
    let (_, lower) = step(driver, EncodeEvent::Compared(None));
    assert_eq!(
        lower,
        EncodeStep {
            effects: vec![Effect::Message("encoding, ".into())],
            task: EncodeTask::LowerArgs { video_only: false },
        }
    );
}

#[test]
fn encode_goes_from_begin_to_summary() {
    let mut options = options();
    options.audio_codec = Some("libopus".into());
    options.overwrite_input = true;
    options.video_only = true;
    let driver = EncodeDriver::new(options, test_probe(), plan(None));

    let (driver, lower) = step(driver, EncodeEvent::Begin);
    assert_eq!(
        lower,
        EncodeStep {
            effects: vec![
                Effect::Announce("dir/vid.av1.mkv".into()),
                Effect::Message("encoding, ".into()),
            ],
            task: EncodeTask::LowerArgs { video_only: true },
        }
    );
    let (driver, make_temp) = step(driver, EncodeEvent::Lowered);
    assert_eq!(
        make_temp,
        EncodeStep {
            effects: vec![Effect::Length(1_000_000), Effect::LogStart("vid.av1.mkv".into())],
            task: EncodeTask::MakeTemp { parent: "dir".into() },
        }
    );
    let in_place = TempOutput { path: "dir/vid.av1.mkv".into(), output: "dir/vid.av1.mkv".into() };
    assert!(!driver.can_accept(&EncodeEvent::TempMade(in_place)));
    let other = TempOutput::new("dir/other.mkv", "dir/.tmp1");
    assert!(!driver.can_accept(&EncodeEvent::TempMade(other)));
    let temp = TempOutput::new("dir/vid.av1.mkv", "dir/.tmp1");
    let (driver, spawn) = step(driver, EncodeEvent::TempMade(temp));
    assert_eq!(
        spawn,
        quiet(EncodeTask::Spawn {
            path: "dir/.tmp1/vid.av1.mkv".into(),
            has_audio: true,
            audio_codec: Some("libopus".into()),
            stereo_downmix: true,
        })
    );
    let (driver, poll) = step(driver, EncodeEvent::Spawned);
    assert_eq!(poll, quiet(EncodeTask::Poll));
    let (driver, shown) = step(
        driver,
        EncodeEvent::Progress { fps: "24".into(), running: true, time_micros: 500 },
    );
    assert_eq!(
        shown,
        EncodeStep {
            effects: vec![Effect::Message("24 fps, ".into()), Effect::Position(500)],
            task: EncodeTask::Poll,
        }
    );
    let (driver, shown) = step(
        driver,
        EncodeEvent::Progress { fps: "0".into(), running: false, time_micros: 600 },
    );
    assert_eq!(shown.effects, vec![Effect::Position(600)]);
    let sizes = StreamSizes { video: 1000, audio: 20, subtitle: 0, other: 0 };
    let (driver, poll) = step(driver, EncodeEvent::Sizes(sizes));
    assert_eq!(poll, quiet(EncodeTask::Poll));
    let (driver, wait) = step(driver, EncodeEvent::StreamEnded);
    assert_eq!(wait, quiet(EncodeTask::Wait));
    assert!(!driver.can_accept(&EncodeEvent::Persisted));
    let (driver, persist) = step(driver, EncodeEvent::Exited);
    assert_eq!(
        persist,
        EncodeStep {
            effects: vec![Effect::FinishBar],
            task: EncodeTask::Persist {
                from: "dir/.tmp1/vid.av1.mkv".into(),
                to: "dir/vid.av1.mkv".into(),
            },
        }
    );
    let (driver, measure) = step(driver, EncodeEvent::Persisted);
    assert_eq!(measure, quiet(EncodeTask::Measure));
    let (driver, done) =
        step(driver, EncodeEvent::Measured { output_size: 1020, percent: "51".into() });
    assert_eq!(
        done,
        EncodeStep {
            effects: vec![Effect::Summary(encode_summary(1020, "51", Some(sizes)))],
            task: EncodeTask::Done,
        }
    );
    assert!(!driver.can_accept(&EncodeEvent::Begin));
    assert!(!driver.can_accept(&EncodeEvent::Failed));
}

#[test]
fn unknown_duration_moves_no_bar() {
    let mut probe = test_probe();
    probe.duration_micros = None;
    let mut options = options();
    options.downmix_to_stereo = false;
    options.overwrite_input = true;
    let driver = EncodeDriver::new(options, probe, plan(Some("out.mkv")));
    let (driver, _) = step(driver, EncodeEvent::Begin);
    let (driver, make_temp) = step(driver, EncodeEvent::Lowered);
    assert_eq!(make_temp.effects, vec![Effect::LogStart("out.mkv".into())]);
    let (driver, spawn) =
        step(driver, EncodeEvent::TempMade(TempOutput::new("out.mkv", "./.tmp1")));
    assert_eq!(
        spawn.task,
        EncodeTask::Spawn {
            path: "./.tmp1/out.mkv".into(),
            has_audio: true,
            audio_codec: Some("copy".into()),
            stereo_downmix: false,
        }
    );
    let (driver, _) = step(driver, EncodeEvent::Spawned);
    let (driver, shown) = step(
        driver,
        EncodeEvent::Progress { fps: "1".into(), running: true, time_micros: 500 },
    );
    assert_eq!(shown.effects, vec![Effect::Message("1 fps, ".into())]);
    let (driver, failed) = step(driver, EncodeEvent::Failed);
    assert_eq!(failed, quiet(EncodeTask::Fail(EncodeError::TaskFailed)));
    assert_eq!(driver.phase, EncodePhase::Failed);
}

#[test]
fn bar_of_an_empty_video_has_length_one() {
    let mut probe = test_probe();
    probe.duration_micros = Some(0);
    let driver = EncodeDriver::new(options(), probe, plan(Some("out.mkv")));
    let (driver, _) = step(driver, EncodeEvent::Begin);
    let (driver, _) = step(driver, EncodeEvent::Compared(Some(false)));
    let (_, failed) = step(driver, EncodeEvent::Lowered);
    assert_eq!(failed.effects, vec![Effect::Length(1)]);
}

#[test]
fn only_many_channels_are_mixed_down() {
    let mut probe = test_probe();
    assert!(stereo_downmix(&options(), &probe));
    probe.max_audio_channels = Some(3);
    assert!(!stereo_downmix(&options(), &probe));
    probe.max_audio_channels = None;
    assert!(!stereo_downmix(&options(), &probe));
}

#[test]
fn notice_is_quoted_for_the_shell() {
    assert_eq!(encoding_notice("dir/vid.av1.mkv"), "Encoding dir/vid.av1.mkv");
    if std::path::MAIN_SEPARATOR == '/' {
        assert_eq!(encoding_notice("my vid's!.mkv"), r"Encoding 'my vid'\''s'\!'.mkv'");
        assert_eq!(encoding_notice(""), "Encoding ''");
    }
    assert_eq!(notice_of("'a b'"), "Encoding 'a b'");
}

fn text(segments: &[Segment]) -> String {
    segments.iter().map(|s| s.text.as_str()).collect()
}

#[test]
fn summary_names_the_parts() {
    let sizes = StreamSizes { video: 1_500_000, audio: 1_500, subtitle: 0, other: 15 };
    let summary = encode_summary(1_500_000_000, "42", Some(sizes));
    assert_eq!(
        text(&summary),
        "Encoded 1.40 GiB (42%, video:1.43 MiB, audio:1.46 KiB, other:15 B)"
    );
    assert_eq!(summary[0], Segment { look: Look::Dim, text: "Encoded".into() });
    assert_eq!(summary[2], Segment { look: Look::DimBold, text: "1.40 GiB".into() });
    assert_eq!(summary[5], Segment { look: Look::DimBold, text: "42%".into() });

    let video_only = StreamSizes { video: 15, audio: 0, subtitle: 0, other: 0 };
    assert_eq!(text(&encode_summary(1023, "100", Some(video_only))), "Encoded 1023 B (100%)");
    assert_eq!(text(&encode_summary(0, "NaN", None)), "Encoded 0 B (NaN%)");

    let subtitles = StreamSizes { video: 0, audio: 0, subtitle: 7, other: 0 };
    assert_eq!(text(&encode_summary(7, "1", Some(subtitles))), "Encoded 7 B (1%, subs:7 B)");

    let parts = vec![Part { label: "video:".into(), size: "big".into() }];
    assert_eq!(text(&summary_of("huge", "3", &parts)), "Encoded huge (3%, video:big)");
}

fn run_step(driver: RunDriver, event: RunEvent) -> (RunDriver, RunStep) {
    assert!(driver.can_accept(&event), "{event:?} at {:?}", driver.phase);
    driver.step(event)
}

#[test]
fn run_goes_from_begin_to_its_result() {
    let driver =
        RunDriver::new("vid.mkv".into(), "dir/out.mkv".into(), "out.mkv".into(), true);
    let (driver, lower) = run_step(driver, RunEvent::Begin);
    assert_eq!(
        lower,
        RunStep { effects: vec![Effect::LogStart("out.mkv".into())], task: RunTask::LowerArgs }
    );
    let (driver, spawn) = run_step(driver, RunEvent::Lowered);
    assert_eq!(spawn, RunStep { effects: vec![], task: RunTask::Spawn });
    let (driver, _) = run_step(driver, RunEvent::Spawned);
    let (driver, shown) = run_step(
        driver,
        RunEvent::Told(Some(BarUpdate { fps: "24".into(), time_micros: 5 })),
    );
    assert_eq!(
        shown,
        RunStep {
            effects: vec![
                Effect::Message("24 fps, ".into()),
                Effect::Position(5),
                Effect::Notify { fps: "24".into(), time_micros: 5, output: "dir/out.mkv".into() },
            ],
            task: RunTask::Poll,
        }
    );
    let (driver, shown) = run_step(driver, RunEvent::Told(None));
    assert_eq!(shown, RunStep { effects: vec![], task: RunTask::Poll });
    let sizes = Some(StreamSizes { video: 1, audio: 2, subtitle: 3, other: 4 });
    let (driver, wait) = run_step(driver, RunEvent::StreamEnded(sizes));
    assert_eq!(wait.task, RunTask::Wait);
    assert!(!driver.can_accept(&RunEvent::Finalized));
    let (driver, finalize) = run_step(driver, RunEvent::Exited);
    assert_eq!(
        finalize,
        RunStep { effects: vec![Effect::FinishBar], task: RunTask::Finalize }
    );
    let (driver, done) = run_step(driver, RunEvent::Finalized);
    assert_eq!(
        done.task,
        RunTask::Done(EncodeRun {
            input: "vid.mkv".into(),
            output: CompletedOutput { path: "dir/out.mkv".into() },
            stream_sizes: sizes,
        })
    );
    assert!(!driver.can_accept(&RunEvent::Failed));
}

#[test]
fn run_without_duration_and_with_a_failure() {
    let driver = RunDriver::new("vid.mkv".into(), "out.mkv".into(), "out.mkv".into(), false);
    let (driver, _) = run_step(driver, RunEvent::Begin);
    let (driver, _) = run_step(driver, RunEvent::Lowered);
    let (driver, _) = run_step(driver, RunEvent::Spawned);
    let (driver, shown) = run_step(
        driver,
        RunEvent::Told(Some(BarUpdate { fps: "0.5".into(), time_micros: 5 })),
    );
    assert_eq!(
        shown.effects,
        vec![
            Effect::Message("0.5 fps, ".into()),
            Effect::Notify { fps: "0.5".into(), time_micros: 5, output: "out.mkv".into() },
        ]
    );
    let (driver, failed) = run_step(driver, RunEvent::Failed);
    assert_eq!(failed, RunStep { effects: vec![], task: RunTask::Fail });
    assert!(!driver.can_accept(&RunEvent::Exited));
}
