//! The steps of a build: what the caller is asked to do on the machine, and
//! what it reports back.

use vstd::prelude::*;
use crate::error::ErrorKind;

verus! {

/// The stages of a build, in the order in which they run.
#[derive(Clone, Copy, Debug, PartialEq, Eq, Structural)]
pub enum Stage {
    /// Lays out the bundle's directories and writes its two fixed files.
    Bundle,
    /// Fetches the runtime archive.
    Download,
    /// Unpacks the archive and gives the runtime its place.
    Extract,
    /// Produces the prefix.
    Init,
    /// Installs the winetricks verbs.
    Verbs,
    /// Copies the volumes that do not wait for the programs.
    CopyPre,
    /// Runs the configured programs.
    Programs,
    /// Copies the volumes that wait for the programs.
    CopyPost,
    /// Packs the finished prefix.
    Compress,
}

impl Stage {
    /// The place of the stage in a build, counted from zero.
    pub open spec fn order(self) -> nat {
        match self {
            Stage::Bundle => 0,
            Stage::Download => 1,
            Stage::Extract => 2,
            Stage::Init => 3,
            Stage::Verbs => 4,
            Stage::CopyPre => 5,
            Stage::Programs => 6,
            Stage::CopyPost => 7,
            Stage::Compress => 8,
        }
    }

    /// The name of the stage in reports.
    pub open spec fn label(self) -> Seq<char> {
        match self {
            Stage::Bundle => "bundle"@,
            Stage::Download => "download"@,
            Stage::Extract => "extract"@,
            Stage::Init => "prefix"@,
            Stage::Verbs => "verbs"@,
            Stage::CopyPre => "volumes before programs"@,
            Stage::Programs => "programs"@,
            Stage::CopyPost => "volumes after programs"@,
            Stage::Compress => "compress"@,
        }
    }

    /// The name of the stage in reports.
    pub fn name(self) -> (name: &'static str)
        ensures
            name@ == self.label(),
    {
        match self {
            Stage::Bundle => "bundle",
            Stage::Download => "download",
            Stage::Extract => "extract",
            Stage::Init => "prefix",
            Stage::Verbs => "verbs",
            Stage::CopyPre => "volumes before programs",
            Stage::Programs => "programs",
            Stage::CopyPost => "volumes after programs",
            Stage::Compress => "compress",
        }
    }

    /// The kind of error that a failure in the stage is reported as.
    pub open spec fn failure_kind(self) -> ErrorKind {
        match self {
            Stage::Bundle => ErrorKind::Io,
            Stage::Download => ErrorKind::Download,
            Stage::Extract => ErrorKind::Extract,
            Stage::Init => ErrorKind::Init,
            Stage::Verbs => ErrorKind::Verb,
            Stage::CopyPre => ErrorKind::Io,
            Stage::Programs => ErrorKind::Run,
            Stage::CopyPost => ErrorKind::Io,
            Stage::Compress => ErrorKind::Compress,
        }
    }

    /// The kind of error that a failure in the stage is reported as.
    pub fn error_kind(self) -> (kind: ErrorKind)
        ensures
            kind == self.failure_kind(),
    {
        match self {
            Stage::Bundle => ErrorKind::Io,
            Stage::Download => ErrorKind::Download,
            Stage::Extract => ErrorKind::Extract,
            Stage::Init => ErrorKind::Init,
            Stage::Verbs => ErrorKind::Verb,
            Stage::CopyPre => ErrorKind::Io,
            Stage::Programs => ErrorKind::Run,
            Stage::CopyPost => ErrorKind::Io,
            Stage::Compress => ErrorKind::Compress,
        }
    }
}

/// One thing to do on the machine.
#[derive(Clone, Debug, PartialEq, Eq)]
pub enum Action {
    /// Create the directory `path`. Its parent must exist and `path` must
    /// not.
    CreateDir { path: String },
    /// Create the directory `path` and every parent that is missing.
    CreateDirAll { path: String },
    /// Write `contents` to the file `path`, replacing what was there, and
    /// make the file executable if asked.
    WriteFile { path: String, contents: String, executable: bool },
    /// Fetch `url` and store the body in the file `dest`.
    Download { url: String, dest: String },
    /// Run `program` with `args`, with each pair of `env` added to the
    /// environment, and wait until it ends.
    Execute { program: String, args: Vec<String>, env: Vec<(String, String)> },
    /// Delete the file `path`.
    RemoveFile { path: String },
    /// Delete the directory `path` with all it holds.
    RemoveDirAll { path: String },
    /// Give `from` the name `to`. Nothing may exist at `to`.
    Rename { from: String, to: String },
    /// Find the absolute path that `path` stands for.
    Resolve { path: String },
    /// Copy the file or directory tree `from` to `to`. With `overwrite`,
    /// what is already at the destination is replaced.
    Copy { from: String, to: String, overwrite: bool },
}

/// An `Action` as a value.
pub ghost enum ActionView {
    CreateDir { path: Seq<char> },
    CreateDirAll { path: Seq<char> },
    WriteFile { path: Seq<char>, contents: Seq<char>, executable: bool },
    Download { url: Seq<char>, dest: Seq<char> },
    Execute { program: Seq<char>, args: Seq<Seq<char>>, env: Seq<(Seq<char>, Seq<char>)> },
    RemoveFile { path: Seq<char> },
    RemoveDirAll { path: Seq<char> },
    Rename { from: Seq<char>, to: Seq<char> },
    Resolve { path: Seq<char> },
    Copy { from: Seq<char>, to: Seq<char>, overwrite: bool },
}

impl DeepView for Action {
    type V = ActionView;

    open spec fn deep_view(&self) -> ActionView {
        match self {
            Action::CreateDir { path } => ActionView::CreateDir { path: path@ },
            Action::CreateDirAll { path } => ActionView::CreateDirAll { path: path@ },
            Action::WriteFile { path, contents, executable } => ActionView::WriteFile {
                path: path@,
                contents: contents@,
                executable: *executable,
            },
            Action::Download { url, dest } => ActionView::Download { url: url@, dest: dest@ },
            Action::Execute { program, args, env } => ActionView::Execute {
                program: program@,
                args: args.deep_view(),
                env: env.deep_view(),
            },
            Action::RemoveFile { path } => ActionView::RemoveFile { path: path@ },
            Action::RemoveDirAll { path } => ActionView::RemoveDirAll { path: path@ },
            Action::Rename { from, to } => ActionView::Rename { from: from@, to: to@ },
            Action::Resolve { path } => ActionView::Resolve { path: path@ },
            Action::Copy { from, to, overwrite } => ActionView::Copy {
                from: from@,
                to: to@,
                overwrite: *overwrite,
            },
        }
    }
}

impl View for Action {
    type V = ActionView;

    open spec fn view(&self) -> ActionView {
        self.deep_view()
    }
}

/// An action with its place in the build.
#[derive(Clone, Debug, PartialEq, Eq)]
pub struct Step {
    /// The stage that the action belongs to.
    pub stage: Stage,
    /// What the action is for, in words; it heads the report of a failure.
    pub context: String,
    pub action: Action,
}

/// A `Step` as a value.
pub ghost struct StepView {
    pub stage: Stage,
    pub context: Seq<char>,
    pub action: ActionView,
}

impl DeepView for Step {
    type V = StepView;

    open spec fn deep_view(&self) -> StepView {
        StepView { stage: self.stage, context: self.context@, action: self.action@ }
    }
}

impl View for Step {
    type V = StepView;

    open spec fn view(&self) -> StepView {
        self.deep_view()
    }
}

/// What became of an action.
#[derive(Clone, Debug, PartialEq, Eq)]
pub enum Event {
    /// The action was carried out.
    Completed,
    /// The program ran and ended with this status, or without one when a
    /// signal ended it.
    Exited(Option<i32>),
    /// The path was resolved to this absolute path.
    Resolved(String),
    /// The action could not be carried out; the text says why.
    Failed(String),
}

/// An `Event` as a value.
pub ghost enum EventView {
    Completed,
    Exited(Option<i32>),
    Resolved(Seq<char>),
    Failed(Seq<char>),
}

impl DeepView for Event {
    type V = EventView;

    open spec fn deep_view(&self) -> EventView {
        match self {
            Event::Completed => EventView::Completed,
            Event::Exited(status) => EventView::Exited(*status),
            Event::Resolved(path) => EventView::Resolved(path@),
            Event::Failed(text) => EventView::Failed(text@),
        }
    }
}

impl View for Event {
    type V = EventView;

    open spec fn view(&self) -> EventView {
        self.deep_view()
    }
}

} // verus!
