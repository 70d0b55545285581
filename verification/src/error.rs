//! The failures the harness reports.

use vstd::prelude::*;
use vstd::string::*;
use crate::process::{Output, OutputView};

verus! {

/// A failure of the harness. Every variant that stems from a runtime
/// invocation carries what the runtime printed, untouched.
#[derive(Clone, Debug, PartialEq, Eq)]
pub enum Error {
    /// The runtime executable could not be started.
    Launch { reason: String },
    /// A runtime invocation ended with a non-zero status.
    Exit(Output),
    /// The captured output does not hold the identifier or path looked for.
    Malformed(Output),
    /// Waiting for another caller's build took longer than allowed.
    CacheUnavailable,
    /// The build for a key failed inside the builder container.
    Build(Output),
    /// The path has no final segment to name a deployed file by.
    NoFileName { path: String },
    /// Copying a file into a container failed.
    Copy { from: String, to: String, id: String, output: Output },
    /// Removing a container failed.
    Teardown { id: String, output: Output },
    /// The container has been torn down; nothing can be done with it.
    Terminated { id: String },
}

/// An `Error` as plain values.
pub enum ErrorView {
    Launch { reason: Seq<char> },
    Exit(OutputView),
    Malformed(OutputView),
    CacheUnavailable,
    Build(OutputView),
    NoFileName { path: Seq<char> },
    Copy { from: Seq<char>, to: Seq<char>, id: Seq<char>, output: OutputView },
    Teardown { id: Seq<char>, output: OutputView },
    Terminated { id: Seq<char> },
}

impl View for Error {
    type V = ErrorView;

    open spec fn view(&self) -> ErrorView {
        match *self {
            Error::Launch { reason } => ErrorView::Launch { reason: reason@ },
            Error::Exit(output) => ErrorView::Exit(output@),
            Error::Malformed(output) => ErrorView::Malformed(output@),
            Error::CacheUnavailable => ErrorView::CacheUnavailable,
            Error::Build(output) => ErrorView::Build(output@),
            Error::NoFileName { path } => ErrorView::NoFileName { path: path@ },
            Error::Copy { from, to, id, output } => ErrorView::Copy {
                from: from@,
                to: to@,
                id: id@,
                output: output@,
            },
            Error::Teardown { id, output } => ErrorView::Teardown { id: id@, output: output@ },
            Error::Terminated { id } => ErrorView::Terminated { id: id@ },
        }
    }
}

impl Error {
    /// Whether the failure must end the process: a container that could not
    /// be removed is leaked, and that is never passed over.
    pub open spec fn fatal(self) -> bool {
        self is Teardown
    }

    /// Whether the failure must end the process.
    pub fn is_fatal(&self) -> (r: bool)
        ensures
            r == self.fatal(),
    {
        match self {
            Error::Teardown { .. } => true,
            _ => false,
        }
    }

    /// The runtime output that came with the failure, if it stems from an
    /// invocation that ran.
    pub open spec fn evidence(self) -> Option<Output> {
        match self {
            Error::Exit(output) => Some(output),
            Error::Malformed(output) => Some(output),
            Error::Build(output) => Some(output),
            Error::Copy { output, .. } => Some(output),
            Error::Teardown { output, .. } => Some(output),
            _ => None,
        }
    }

    /// The runtime output that came with the failure.
    pub fn output(&self) -> (r: Option<&Output>)
        ensures
            r is Some <==> self.evidence() is Some,
            r matches Some(o) ==> self.evidence() == Some(*o),
    {
        match self {
            Error::Exit(output) => Some(output),
            Error::Malformed(output) => Some(output),
            Error::Build(output) => Some(output),
            Error::Copy { output, .. } => Some(output),
            Error::Teardown { output, .. } => Some(output),
            _ => None,
        }
    }

    /// A copy that holds the same texts and the same output.
    pub fn duplicate(&self) -> (r: Error)
        ensures
            r@ == self@,
    {
        match self {
            Error::Launch { reason } => Error::Launch { reason: reason.clone() },
            Error::Exit(output) => Error::Exit(output.duplicate()),
            Error::Malformed(output) => Error::Malformed(output.duplicate()),
            Error::CacheUnavailable => Error::CacheUnavailable,
            Error::Build(output) => Error::Build(output.duplicate()),
            Error::NoFileName { path } => Error::NoFileName { path: path.clone() },
            Error::Copy { from, to, id, output } => Error::Copy {
                from: from.clone(),
                to: to.clone(),
                id: id.clone(),
                output: output.duplicate(),
            },
            Error::Teardown { id, output } => Error::Teardown {
                id: id.clone(),
                output: output.duplicate(),
            },
            Error::Terminated { id } => Error::Terminated { id: id.clone() },
        }
    }

    /// The one-line description of the failure.
    pub open spec fn description(self) -> Seq<char> {
        match self {
            Error::Launch { reason } => "Could not start the container runtime: "@ + reason@,
            Error::Exit(_) => "The container runtime exited with a failure"@,
            Error::Malformed(_) => "Unexpected output from the container runtime"@,
            Error::CacheUnavailable => "Timed out waiting for a build in progress"@,
            Error::Build(_) => "The build failed"@,
            Error::NoFileName { path } => "No file name in path "@ + path@,
            Error::Copy { from, to, id, .. } => "Copy of "@ + from@ + " to "@ + id@ + ":"@ + to@
                + " failed"@,
            Error::Teardown { id, .. } => "Could not remove container "@ + id@,
            Error::Terminated { id } => "Container "@ + id@ + " has been removed"@,
        }
    }

    /// The one-line description of the failure.
    pub fn message(&self) -> (r: String)
        ensures
            r@ == self.description(),
    {
        match self {
            Error::Launch { reason } => {
                let mut r = "Could not start the container runtime: ".to_owned();
                r.append(reason.as_str());
                r
            },
            Error::Exit(_) => "The container runtime exited with a failure".to_owned(),
            Error::Malformed(_) => "Unexpected output from the container runtime".to_owned(),
            Error::CacheUnavailable => "Timed out waiting for a build in progress".to_owned(),
            Error::Build(_) => "The build failed".to_owned(),
            Error::NoFileName { path } => {
                let mut r = "No file name in path ".to_owned();
                r.append(path.as_str());
                r
            },
            Error::Copy { from, to, id, .. } => {
                let mut r = "Copy of ".to_owned();
                r.append(from.as_str());
                r.append(" to ");
                r.append(id.as_str());
                r.append(":");
                r.append(to.as_str());
                r.append(" failed");
                r
            },
            Error::Teardown { id, .. } => {
                let mut r = "Could not remove container ".to_owned();
                r.append(id.as_str());
                r
            },
            Error::Terminated { id } => {
                let mut r = "Container ".to_owned();
                r.append(id.as_str());
                r.append(" has been removed");
                r
            },
        }
    }
}

} // verus!
