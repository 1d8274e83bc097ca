use boxwine::action::{Action, Event, Stage};
use boxwine::config::{Config, Run, Volume};
use boxwine::create::{build, create, Create};
use boxwine::error::{Cause, ErrorKind};
use boxwine::pipeline::Machine;

fn text(s: &str) -> String {
    s.to_string()
}

fn opts(output: &str) -> Create {
    Create { file: text("app.boxwine.toml"), output: text(output) }
}

/// A machine that does nothing but keep the actions it is handed. Every
/// action works on it, but for the programs named in `broken`.
struct Recorder {
    actions: Vec<Action>,
    broken: Vec<String>,
}

impl Recorder {
    fn new() -> Recorder {
        Recorder { actions: Vec::new(), broken: Vec::new() }
    }
}

impl Machine for Recorder {
    fn perform(&mut self, action: &Action) -> Event {
        self.actions.push(action.clone());
        match action {
            Action::Execute { program, .. } => {
                if self.broken.contains(program) {
                    Event::Exited(Some(1))
                } else {
                    Event::Exited(Some(0))
                }
            }
            Action::Resolve { path } => Event::Resolved(format!("/abs/{}", path.trim_end_matches('/'))),
            _ => Event::Completed,
        }
    }
}

/// A machine on which nothing works.
struct Wreck {
    asked: usize,
}

impl Machine for Wreck {
    fn perform(&mut self, _action: &Action) -> Event {
        self.asked += 1;
        Event::Failed(text("out of order"))
    }
}

fn sample() -> Config {
    let mut config = Config::default();
    config.wine.volumes = vec![Volume {
        from: text("host/file.txt"),
        to: text("c:/target/file.txt"),
        post_install: false,
    }];
    config.wine.runs = vec![Run { program: text("Setup.exe"), args: None }];
    config.winetricks.verbs = vec![text("directshow")];
    config
}

#[test]
fn bad_output_path_leaves_the_machine_alone() {
    let mut machine = Recorder::new();
    let error = build(opts("My App"), sample(), &mut machine).unwrap_err();
    assert_eq!(error.kind, ErrorKind::Validation);
    assert_eq!(error.message(), "output \"My App\" must end with \".app\"");
    assert!(machine.actions.is_empty());
}

#[test]
fn build_carries_every_step_out_once() {
    let mut machine = Recorder::new();
    assert_eq!(build(opts("My App.app"), sample(), &mut machine), Ok(()));

    let mut expected = Vec::new();
    let mut pipeline = match create(opts("My App.app"), sample()) {
        Ok(pipeline) => pipeline,
        Err(error) => panic!("turned down: {}", error.message()),
    };
    let mut twin = Recorder::new();
    loop {
        let event = match pipeline.pending() {
            Some(step) => {
                expected.push(step.action.clone());
                twin.perform(&step.action)
            }
            None => break,
        };
        pipeline.advance(event);
    }
    assert!(pipeline.is_finished());
    assert_eq!(machine.actions, expected);
    assert_eq!(machine.actions.len(), 12 + 2 + 1 + 2);
}

#[test]
fn build_hands_the_copy_of_the_file_to_the_machine_before_the_programs() {
    let mut machine = Recorder::new();
    assert_eq!(build(opts("My App.app"), sample(), &mut machine), Ok(()));
    let copy = machine
        .actions
        .iter()
        .position(|action| {
            action
                == &Action::Copy {
                    from: text("host/file.txt"),
                    to: text(
                        "/abs/My App.app/Contents/MacOS/wineprefix/dosdrives/c:/target/file.txt",
                    ),
                    overwrite: true,
                }
        })
        .expect("the copy");
    let program = machine
        .actions
        .iter()
        .position(|action| match action {
            Action::Execute { program, .. } => program.ends_with("/bin/wine"),
            _ => false,
        })
        .expect("the program");
    assert!(copy < program);
}

#[test]
fn build_stops_at_the_first_failure() {
    let mut machine = Recorder::new();
    machine.broken.push(text("winetricks"));
    let error = build(opts("My App.app"), sample(), &mut machine).unwrap_err();
    assert_eq!(error.kind, ErrorKind::Verb);
    assert_eq!(error.stage, Some(Stage::Verbs));
    assert_eq!(error.cause, Cause::Exit(Some(1)));
    assert_eq!(machine.actions.len(), 12);
    assert!(matches!(
        machine.actions.last(),
        Some(Action::Execute { program, .. }) if program == "winetricks"
    ));
}

#[test]
fn build_on_a_wreck_fails_with_the_first_step() {
    let mut machine = Wreck { asked: 0 };
    let error = build(opts("My App.app"), sample(), &mut machine).unwrap_err();
    assert_eq!(machine.asked, 1);
    assert_eq!(error.kind, ErrorKind::Io);
    assert_eq!(error.message(), "bundle: Creating My App.app: out of order");
}

#[test]
fn run_goes_on_from_where_the_build_stands() {
    let mut pipeline = match create(opts("My App.app"), sample()) {
        Ok(pipeline) => pipeline,
        Err(error) => panic!("turned down: {}", error.message()),
    };
    pipeline.advance(Event::Completed);
    pipeline.advance(Event::Completed);
    let mut machine = Recorder::new();
    assert_eq!(pipeline.run(&mut machine), Ok(()));
    assert!(pipeline.is_finished());
    assert_eq!(machine.actions.len(), 17 - 2);
    assert_eq!(
        machine.actions[0],
        Action::CreateDirAll { path: text("My App.app/Contents/MacOS") }
    );

    let mut again = Recorder::new();
    assert_eq!(pipeline.run(&mut again), Ok(()));
    assert!(again.actions.is_empty());
}
