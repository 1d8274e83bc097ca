//! What a build reports when it cannot go on.

use vstd::prelude::*;
use crate::action::Stage;
use crate::text::{integer, integer_text};

verus! {

/// The kinds of failure a build distinguishes.
#[derive(Clone, Copy, Debug, PartialEq, Eq, Structural)]
pub enum ErrorKind {
    /// The output path does not have the shape of a bundle.
    Validation,
    /// A directory or file could not be created, copied or written.
    Io,
    /// The runtime archive could not be fetched.
    Download,
    /// The archive could not be unpacked, or did not hold what was expected.
    Extract,
    /// The prefix could not be set up.
    Init,
    /// winetricks failed.
    Verb,
    /// A configured program failed.
    Run,
    /// The prefix could not be packed.
    Compress,
}

/// Why a step failed.
#[derive(Clone, Debug, PartialEq, Eq)]
pub enum Cause {
    /// The request itself was turned down; nothing was attempted.
    Rejected,
    /// The step could not be carried out; the text says why.
    Failed(String),
    /// A program ran and ended with this status, or without one when a
    /// signal ended it.
    Exit(Option<i32>),
    /// The report does not fit the step it answers.
    Unexpected,
}

/// A `Cause` as a value.
pub ghost enum CauseView {
    Rejected,
    Failed(Seq<char>),
    Exit(Option<i32>),
    Unexpected,
}

impl DeepView for Cause {
    type V = CauseView;

    open spec fn deep_view(&self) -> CauseView {
        match self {
            Cause::Rejected => CauseView::Rejected,
            Cause::Failed(text) => CauseView::Failed(text@),
            Cause::Exit(status) => CauseView::Exit(*status),
            Cause::Unexpected => CauseView::Unexpected,
        }
    }
}

impl View for Cause {
    type V = CauseView;

    open spec fn view(&self) -> CauseView {
        self.deep_view()
    }
}

/// The failure of a build.
#[derive(Clone, Debug, PartialEq, Eq)]
pub struct BuildError {
    pub kind: ErrorKind,
    /// The stage that failed, unless the build was turned down before its
    /// first stage.
    pub stage: Option<Stage>,
    /// What was being done, in words.
    pub context: String,
    pub cause: Cause,
}

/// A `BuildError` as a value.
pub ghost struct BuildErrorView {
    pub kind: ErrorKind,
    pub stage: Option<Stage>,
    pub context: Seq<char>,
    pub cause: CauseView,
}

impl DeepView for BuildError {
    type V = BuildErrorView;

    open spec fn deep_view(&self) -> BuildErrorView {
        BuildErrorView {
            kind: self.kind,
            stage: self.stage,
            context: self.context@,
            cause: self.cause@,
        }
    }
}

impl View for BuildError {
    type V = BuildErrorView;

    open spec fn view(&self) -> BuildErrorView {
        self.deep_view()
    }
}

impl CauseView {
    /// The cause in words; nothing where the request was turned down, for
    /// then the context says it all.
    pub open spec fn text(self) -> Seq<char> {
        match self {
            CauseView::Rejected => Seq::empty(),
            CauseView::Failed(text) => text,
            CauseView::Exit(Some(status)) => "exit status "@ + integer_text(status as int),
            CauseView::Exit(None) => "ended by a signal"@,
            CauseView::Unexpected => "unexpected report"@,
        }
    }
}

impl BuildErrorView {
    /// The one line that tells the user what failed: the stage, what was
    /// being done, and why it failed, with a colon and a blank between
    /// them.
    pub open spec fn message(self) -> Seq<char> {
        let place = match self.stage {
            Some(stage) => stage.label() + ": "@ + self.context,
            None => self.context,
        };
        match self.cause {
            CauseView::Rejected => place,
            cause => place + ": "@ + cause.text(),
        }
    }
}

impl Cause {
    /// The cause in words.
    pub fn text(&self) -> (text: String)
        ensures
            text@ == self@.text(),
    {
        match self {
            Cause::Rejected => String::new(),
            Cause::Failed(text) => text.clone(),
            Cause::Exit(Some(status)) => {
                let mut text = String::from_str("exit status ");
                text.append(integer(*status).as_str());
                text
            },
            Cause::Exit(None) => String::from_str("ended by a signal"),
            Cause::Unexpected => String::from_str("unexpected report"),
        }
    }
}

impl BuildError {
    /// The one line that tells the user what failed.
    pub fn message(&self) -> (message: String)
        ensures
            message@ == self@.message(),
    {
        let mut message = match self.stage {
            Some(stage) => {
                let mut place = String::from_str(stage.name());
                place.append(": ");
                place.append(self.context.as_str());
                place
            },
            None => self.context.clone(),
        };
        match &self.cause {
            Cause::Rejected => {},
            cause => {
                message.append(": ");
                message.append(cause.text().as_str());
            },
        }
        message
    }
}

} // verus!
