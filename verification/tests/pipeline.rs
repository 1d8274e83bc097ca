use boxwine::action::{Action, Event, Stage, Step};
use boxwine::config::{Config, Run, Volume};
use boxwine::create::{create, Create};
use boxwine::error::{BuildError, Cause, ErrorKind};
use boxwine::pipeline::{judge, Pipeline};

fn text(s: &str) -> String {
    s.to_string()
}

fn opts(output: &str) -> Create {
    Create { file: text("app.boxwine.toml"), output: text(output) }
}

fn begin(config: Config) -> Pipeline {
    match create(opts("My App.app"), config) {
        Ok(pipeline) => pipeline,
        Err(error) => panic!("turned down: {}", error.message()),
    }
}

fn full() -> Config {
    let mut config = Config::default();
    config.wine.volumes = vec![
        Volume { from: text("host/file.txt"), to: text("c:/target/file.txt"), post_install: false },
        Volume { from: text("c:/made/by/setup"), to: text("c:/kept"), post_install: true },
    ];
    config.wine.runs = vec![
        Run { program: text("Setup.exe"), args: None },
        Run { program: text("Patch.exe"), args: Some(vec![text("/quiet")]) },
    ];
    config.winetricks.verbs = vec![text("directshow")];
    config
}

/// The report of a machine on which everything works.
fn succeed(action: &Action) -> Event {
    match action {
        Action::Execute { .. } => Event::Exited(Some(0)),
        Action::Resolve { .. } => Event::Resolved(text("/abs/My App.app/Contents/MacOS")),
        _ => Event::Completed,
    }
}

/// Runs the build on a machine on which everything works, up to the first
/// step of `stop_at`, and hands out the steps that were carried out.
fn run_until(pipeline: &mut Pipeline, stop_at: Option<Stage>) -> Vec<Step> {
    let mut carried_out = Vec::new();
    loop {
        let step = match pipeline.pending() {
            Some(step) => step.clone(),
            None => return carried_out,
        };
        if Some(step.stage) == stop_at {
            return carried_out;
        }
        pipeline.advance(succeed(&step.action));
        carried_out.push(step);
    }
}

fn fail_in(stage: Stage, event: Event) -> (BuildError, Step) {
    let mut pipeline = begin(full());
    run_until(&mut pipeline, Some(stage));
    let step = pipeline.pending().expect("a step of the stage").clone();
    assert_eq!(step.stage, stage);
    pipeline.advance(event);
    assert!(pipeline.pending().is_none());
    assert!(!pipeline.is_finished());
    (pipeline.failure().clone().expect("a failure"), step)
}

#[test]
fn output_without_the_suffix_is_turned_down() {
    for output in ["My App", "My App.app/", "My App.APP", "app", ""] {
        match create(opts(output), Config::default()) {
            Ok(_) => panic!("accepted {:?}", output),
            Err(error) => {
                assert_eq!(error.kind, ErrorKind::Validation);
                assert_eq!(error.stage, None);
                assert_eq!(error.cause, Cause::Rejected);
                assert_eq!(error.context, format!("output \"{}\" must end with \".app\"", output));
                assert_eq!(error.message(), format!("output \"{}\" must end with \".app\"", output));
            }
        }
    }
}

#[test]
fn output_with_the_suffix_begins_with_the_bundle_itself() {
    for output in ["My App.app", ".app", "out/dir/x.app"] {
        let pipeline = match create(opts(output), Config::default()) {
            Ok(pipeline) => pipeline,
            Err(error) => panic!("turned down: {}", error.message()),
        };
        assert!(!pipeline.is_finished());
        assert_eq!(pipeline.failure(), &None);
        assert_eq!(
            pipeline.pending(),
            Some(&Step {
                stage: Stage::Bundle,
                context: format!("Creating {}", output),
                action: Action::CreateDir { path: text(output) },
            })
        );
    }
}

#[test]
fn successful_build_goes_through_every_stage_in_order() {
    let mut pipeline = begin(full());
    let steps = run_until(&mut pipeline, None);
    assert!(pipeline.is_finished());
    assert_eq!(pipeline.failure(), &None);
    assert!(pipeline.pending().is_none());

    let stages: Vec<Stage> = steps.iter().map(|step| step.stage).collect();
    assert_eq!(
        stages,
        vec![
            Stage::Bundle,
            Stage::Bundle,
            Stage::Bundle,
            Stage::Bundle,
            Stage::Bundle,
            Stage::Download,
            Stage::Extract,
            Stage::Extract,
            Stage::Extract,
            Stage::Init,
            Stage::Init,
            Stage::Verbs,
            Stage::CopyPre,
            Stage::CopyPre,
            Stage::Programs,
            Stage::Programs,
            Stage::CopyPost,
            Stage::CopyPost,
            Stage::Compress,
            Stage::Compress,
        ]
    );
}

#[test]
fn bundle_holds_two_directories_and_two_files() {
    let mut pipeline = begin(Config::default());
    let steps = run_until(&mut pipeline, None);
    let bundle: Vec<&Action> =
        steps.iter().filter(|step| step.stage == Stage::Bundle).map(|step| &step.action).collect();
    assert_eq!(bundle.len(), 5);
    assert_eq!(bundle[0], &Action::CreateDir { path: text("My App.app") });
    assert_eq!(bundle[1], &Action::CreateDirAll { path: text("My App.app/Contents/Resources") });
    assert_eq!(bundle[2], &Action::CreateDirAll { path: text("My App.app/Contents/MacOS") });
    match (bundle[3], bundle[4]) {
        (
            Action::WriteFile { path: plist, executable: false, .. },
            Action::WriteFile { path: launch, executable: true, .. },
        ) => {
            assert_eq!(plist, "My App.app/Info.plist");
            assert_eq!(launch, "My App.app/Contents/MacOS/launch");
        }
        other => panic!("unexpected actions {:?}", other),
    }
}

#[test]
fn prefix_lies_under_the_resolved_path() {
    let mut pipeline = begin(full());
    let steps = run_until(&mut pipeline, None);
    assert_eq!(
        steps[9].action,
        Action::Resolve { path: text("My App.app/Contents/MacOS/") }
    );
    match &steps[10].action {
        Action::Execute { program, args, env } => {
            assert_eq!(program, "My App.app/Contents/MacOS/wine/bin/wineboot");
            assert_eq!(args, &vec![text("-u")]);
            assert_eq!(
                env,
                &vec![
                    (text("WINEPREFIX"), text("/abs/My App.app/Contents/MacOS/wineprefix")),
                    (text("WINEDLLOVERRIDES"), text("mshtml=")),
                ]
            );
        }
        other => panic!("unexpected action {:?}", other),
    }
}

#[test]
fn verbs_are_installed_once_with_sandbox_at_the_end() {
    let mut config = Config::default();
    config.wine.prefix.base_prefix = None;
    config.wine.prefix.sandbox = true;
    config.winetricks.verbs = vec![text("directshow")];
    let mut pipeline = begin(config);
    let steps = run_until(&mut pipeline, None);
    let runs: Vec<&Vec<String>> = steps
        .iter()
        .filter_map(|step| match &step.action {
            Action::Execute { program, args, .. } if program == "winetricks" => Some(args),
            _ => None,
        })
        .collect();
    assert_eq!(runs, vec![&vec![text("directshow"), text("sandbox")]]);
}

#[test]
fn volumes_stand_around_the_programs() {
    let mut pipeline = begin(full());
    let steps = run_until(&mut pipeline, None);
    let place = |wanted: &Action| steps.iter().position(|step| &step.action == wanted).unwrap();
    let prefix = "/abs/My App.app/Contents/MacOS/wineprefix";
    let early = place(&Action::Copy {
        from: text("host/file.txt"),
        to: format!("{}/dosdrives/c:/target/file.txt", prefix),
        overwrite: true,
    });
    let late = place(&Action::Copy {
        from: format!("{}/dosdrives/c:/made/by/setup", prefix),
        to: format!("{}/dosdrives/c:/kept", prefix),
        overwrite: true,
    });
    let programs: Vec<usize> = steps
        .iter()
        .enumerate()
        .filter(|(_, step)| step.stage == Stage::Programs)
        .map(|(at, _)| at)
        .collect();
    assert_eq!(programs.len(), 2);
    assert!(programs.iter().all(|at| early < *at && *at < late));
}

#[test]
fn base_prefix_keeps_wineboot_out_of_the_build() {
    let mut config = full();
    config.wine.prefix.base_prefix = Some(text("/srv/base"));
    let mut pipeline = begin(config);
    let steps = run_until(&mut pipeline, None);
    assert!(pipeline.is_finished());
    assert_eq!(
        steps[10].action,
        Action::Copy {
            from: text("/srv/base"),
            to: text("/abs/My App.app/Contents/MacOS/wineprefix"),
            overwrite: false,
        }
    );
    assert!(steps.iter().all(|step| match &step.action {
        Action::Execute { program, .. } => !program.ends_with("wineboot"),
        _ => true,
    }));
}

#[test]
fn wineboot_runs_once_without_base_prefix() {
    let mut pipeline = begin(full());
    let steps = run_until(&mut pipeline, None);
    let boots = steps
        .iter()
        .filter(|step| match &step.action {
            Action::Execute { program, .. } => program.ends_with("/bin/wineboot"),
            _ => false,
        })
        .count();
    assert_eq!(boots, 1);
}

#[test]
fn packing_ends_the_build_when_configured() {
    let mut pipeline = begin(full());
    let steps = run_until(&mut pipeline, None);
    let prefix = "/abs/My App.app/Contents/MacOS/wineprefix";
    assert_eq!(
        steps[steps.len() - 2].action,
        Action::Execute {
            program: text("tar"),
            args: vec![
                text("-czf"),
                format!("{}/../wineprefix.tar.gz", prefix),
                text("-C"),
                text(prefix),
                text("."),
            ],
            env: vec![],
        }
    );
    assert_eq!(steps[steps.len() - 1].action, Action::RemoveDirAll { path: text(prefix) });
}

#[test]
fn nothing_is_packed_when_not_configured() {
    let mut config = full();
    config.wine.prefix.compress_wineprefix = false;
    let mut pipeline = begin(config);
    let steps = run_until(&mut pipeline, None);
    assert!(pipeline.is_finished());
    assert_eq!(steps.len(), 18);
    assert!(steps.iter().all(|step| step.stage != Stage::Compress));
    assert_eq!(steps.last().map(|step| step.stage), Some(Stage::CopyPost));
}

#[test]
fn smallest_build_has_twelve_steps() {
    let mut config = Config::default();
    config.wine.prefix.compress_wineprefix = false;
    let mut pipeline = begin(config);
    assert_eq!(run_until(&mut pipeline, None).len(), 12);
    assert!(pipeline.is_finished());
}

#[test]
fn existing_bundle_is_an_io_error() {
    let mut pipeline = begin(full());
    pipeline.advance(Event::Failed(text("File exists (os error 17)")));
    let error = pipeline.failure().clone().expect("a failure");
    assert_eq!(
        error,
        BuildError {
            kind: ErrorKind::Io,
            stage: Some(Stage::Bundle),
            context: text("Creating My App.app"),
            cause: Cause::Failed(text("File exists (os error 17)")),
        }
    );
    assert_eq!(error.message(), "bundle: Creating My App.app: File exists (os error 17)");
    assert!(pipeline.pending().is_none());
    assert!(!pipeline.is_finished());
}

#[test]
fn failed_download_is_a_download_error() {
    let (error, _) = fail_in(Stage::Download, Event::Failed(text("status code 404")));
    assert_eq!(error.kind, ErrorKind::Download);
    assert_eq!(error.stage, Some(Stage::Download));
    assert_eq!(
        error.message(),
        "download: Downloading portable-winehq-stable-5.0-osx64.tar.gz: status code 404"
    );
}

#[test]
fn failing_tar_is_an_extract_error() {
    let (error, step) = fail_in(Stage::Extract, Event::Exited(Some(2)));
    assert!(matches!(step.action, Action::Execute { .. }));
    assert_eq!(error.kind, ErrorKind::Extract);
    assert_eq!(error.cause, Cause::Exit(Some(2)));
    assert_eq!(error.message(), "extract: Extracting Wine archive: exit status 2");
}

#[test]
fn missing_unpacked_directory_is_an_extract_error() {
    let mut pipeline = begin(full());
    run_until(&mut pipeline, Some(Stage::Extract));
    pipeline.advance(Event::Exited(Some(0)));
    pipeline.advance(Event::Completed);
    assert!(matches!(pipeline.pending().map(|step| &step.action), Some(Action::Rename { .. })));
    pipeline.advance(Event::Failed(text("No such file or directory (os error 2)")));
    let error = pipeline.failure().clone().expect("a failure");
    assert_eq!(error.kind, ErrorKind::Extract);
    assert_eq!(error.context, "Renaming Wine directory from \"usr\" to \"wine\"");
}

#[test]
fn unresolved_path_is_an_init_error() {
    let (error, step) = fail_in(Stage::Init, Event::Failed(text("not found")));
    assert!(matches!(step.action, Action::Resolve { .. }));
    assert_eq!(error.kind, ErrorKind::Init);
    assert_eq!(
        error.message(),
        "prefix: Getting absolute path to the MacOS directory in the app: not found"
    );
}

#[test]
fn failing_wineboot_is_an_init_error() {
    let mut pipeline = begin(full());
    run_until(&mut pipeline, Some(Stage::Init));
    pipeline.advance(Event::Resolved(text("/abs")));
    pipeline.advance(Event::Exited(Some(1)));
    let error = pipeline.failure().clone().expect("a failure");
    assert_eq!(error.kind, ErrorKind::Init);
    assert_eq!(error.cause, Cause::Exit(Some(1)));
    assert_eq!(error.message(), "prefix: Creating wineprefix at /abs/wineprefix: exit status 1");
}

#[test]
fn failing_copy_of_the_base_prefix_is_an_init_error() {
    let mut config = full();
    config.wine.prefix.base_prefix = Some(text("/missing"));
    let mut pipeline = begin(config);
    run_until(&mut pipeline, Some(Stage::Init));
    pipeline.advance(Event::Resolved(text("/abs")));
    pipeline.advance(Event::Failed(text("source missing")));
    let error = pipeline.failure().clone().expect("a failure");
    assert_eq!(error.kind, ErrorKind::Init);
    assert_eq!(
        error.message(),
        "prefix: Copying base wineprefix from /missing to /abs/wineprefix: source missing"
    );
}

#[test]
fn failing_winetricks_is_a_verb_error() {
    let (error, _) = fail_in(Stage::Verbs, Event::Exited(Some(127)));
    assert_eq!(error.kind, ErrorKind::Verb);
    assert_eq!(error.message(), "verbs: Installing verbs: exit status 127");
}

#[test]
fn failing_copy_is_an_io_error() {
    let (early, _) = fail_in(Stage::CopyPre, Event::Failed(text("denied")));
    assert_eq!(early.kind, ErrorKind::Io);
    assert_eq!(early.stage, Some(Stage::CopyPre));
    assert_eq!(
        early.message(),
        "volumes before programs: Creating directories to copy volume host/file.txt to \
c:/target/file.txt: denied"
    );
    let (late, _) = fail_in(Stage::CopyPost, Event::Failed(text("denied")));
    assert_eq!(late.kind, ErrorKind::Io);
    assert_eq!(late.stage, Some(Stage::CopyPost));
}

#[test]
fn failing_program_is_a_run_error_and_ends_the_build() {
    let (error, step) = fail_in(Stage::Programs, Event::Exited(Some(3)));
    assert_eq!(step.context, "Running program Setup.exe");
    assert_eq!(error.kind, ErrorKind::Run);
    assert_eq!(error.message(), "programs: Running program Setup.exe: exit status 3");
}

#[test]
fn failing_packing_is_a_compress_error() {
    let (error, _) = fail_in(Stage::Compress, Event::Exited(None));
    assert_eq!(error.kind, ErrorKind::Compress);
    assert_eq!(error.cause, Cause::Exit(None));
    assert_eq!(error.message(), "compress: Compressing wineprefix: ended by a signal");
}

#[test]
fn negative_exit_status_is_reported_with_its_sign() {
    let (error, _) = fail_in(Stage::Verbs, Event::Exited(Some(-1)));
    assert_eq!(error.message(), "verbs: Installing verbs: exit status -1");
}

#[test]
fn ended_build_takes_no_more_reports() {
    let mut pipeline = begin(full());
    run_until(&mut pipeline, Some(Stage::Download));
    pipeline.advance(Event::Failed(text("timed out")));
    let failure = pipeline.failure().clone();
    assert!(failure.is_some());
    for event in [
        Event::Completed,
        Event::Exited(Some(0)),
        Event::Resolved(text("/abs")),
        Event::Failed(text("again")),
    ] {
        pipeline.advance(event);
        assert_eq!(pipeline.failure(), &failure);
        assert!(pipeline.pending().is_none());
        assert!(!pipeline.is_finished());
    }

    let mut done = begin(Config::default());
    run_until(&mut done, None);
    assert!(done.is_finished());
    done.advance(Event::Failed(text("late")));
    assert!(done.is_finished());
    assert_eq!(done.failure(), &None);
}

#[test]
fn report_that_does_not_fit_the_step_ends_the_build() {
    let mut pipeline = begin(full());
    pipeline.advance(Event::Exited(Some(0)));
    let error = pipeline.failure().clone().expect("a failure");
    assert_eq!(error.kind, ErrorKind::Io);
    assert_eq!(error.cause, Cause::Unexpected);
    assert_eq!(error.message(), "bundle: Creating My App.app: unexpected report");
}

#[test]
fn reports_are_judged_by_the_action() {
    let run = Action::Execute { program: text("tar"), args: vec![], env: vec![] };
    let ask = Action::Resolve { path: text("x") };
    let make = Action::CreateDir { path: text("x") };

    assert_eq!(judge(&run, &Event::Exited(Some(0))), None);
    assert_eq!(judge(&run, &Event::Exited(Some(1))), Some(Cause::Exit(Some(1))));
    assert_eq!(judge(&run, &Event::Exited(None)), Some(Cause::Exit(None)));
    assert_eq!(judge(&run, &Event::Completed), Some(Cause::Unexpected));
    assert_eq!(judge(&run, &Event::Resolved(text("/x"))), Some(Cause::Unexpected));
    assert_eq!(judge(&run, &Event::Failed(text("no"))), Some(Cause::Failed(text("no"))));

    assert_eq!(judge(&ask, &Event::Resolved(text("/x"))), None);
    assert_eq!(judge(&ask, &Event::Completed), Some(Cause::Unexpected));
    assert_eq!(judge(&ask, &Event::Exited(Some(0))), Some(Cause::Unexpected));
    assert_eq!(judge(&ask, &Event::Failed(text("no"))), Some(Cause::Failed(text("no"))));

    assert_eq!(judge(&make, &Event::Completed), None);
    assert_eq!(judge(&make, &Event::Exited(Some(0))), Some(Cause::Unexpected));
    assert_eq!(judge(&make, &Event::Resolved(text("/x"))), Some(Cause::Unexpected));
    assert_eq!(judge(&make, &Event::Failed(text("no"))), Some(Cause::Failed(text("no"))));
}

#[test]
fn stages_have_their_names_and_kinds() {
    let all = [
        (Stage::Bundle, "bundle", ErrorKind::Io),
        (Stage::Download, "download", ErrorKind::Download),
        (Stage::Extract, "extract", ErrorKind::Extract),
        (Stage::Init, "prefix", ErrorKind::Init),
        (Stage::Verbs, "verbs", ErrorKind::Verb),
        (Stage::CopyPre, "volumes before programs", ErrorKind::Io),
        (Stage::Programs, "programs", ErrorKind::Run),
        (Stage::CopyPost, "volumes after programs", ErrorKind::Io),
        (Stage::Compress, "compress", ErrorKind::Compress),
    ];
    for (stage, name, kind) in all {
        assert_eq!(stage.name(), name);
        assert_eq!(stage.error_kind(), kind);
    }
}

#[test]
fn causes_in_words() {
    assert_eq!(Cause::Rejected.text(), "");
    assert_eq!(Cause::Failed(text("disk full")).text(), "disk full");
    assert_eq!(Cause::Exit(Some(0)).text(), "exit status 0");
    assert_eq!(Cause::Exit(Some(255)).text(), "exit status 255");
    assert_eq!(Cause::Exit(None).text(), "ended by a signal");
    assert_eq!(Cause::Unexpected.text(), "unexpected report");
}
