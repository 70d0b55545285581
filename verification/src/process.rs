//! The process executor's vocabulary: what to run, what came back, and what
//! a non-zero exit means to the caller that asked.

use vstd::prelude::*;
use crate::error::Error;
use crate::text::{push_arg, strs};

verus! {

/// The container runtime whose command line the invocations are written
/// for.
#[derive(Clone, Copy, Debug, PartialEq, Eq)]
pub enum Runtime {
    Podman,
    Docker,
}

impl Runtime {
    /// The name of the runtime's executable.
    pub open spec fn name(self) -> Seq<char> {
        match self {
            Runtime::Podman => "podman"@,
            Runtime::Docker => "docker"@,
        }
    }

    /// The name of the runtime's executable.
    pub fn command(&self) -> (r: &'static str)
        ensures
            r@ == self.name(),
    {
        match self {
            Runtime::Podman => "podman",
            Runtime::Docker => "docker",
        }
    }
}

/// How a finished process reported its end: an exit code, or none when the
/// process was ended by a signal.
#[derive(Clone, Copy, Debug, PartialEq, Eq)]
pub struct ExitStatus {
    pub code: Option<i32>,
}

impl ExitStatus {
    /// Whether the process ended with exit code zero.
    pub open spec fn succeeded(self) -> bool {
        self.code == Some(0i32)
    }

    /// Whether the process ended with exit code zero.
    pub fn success(&self) -> (r: bool)
        ensures
            r == self.succeeded(),
    {
        match self.code {
            Some(code) => code == 0,
            None => false,
        }
    }
}

/// Everything a finished process left behind.
#[derive(Clone, Debug, PartialEq, Eq)]
pub struct Output {
    pub status: ExitStatus,
    pub stdout: Vec<u8>,
    pub stderr: Vec<u8>,
}

/// An `Output` as plain values.
pub struct OutputView {
    pub code: Option<i32>,
    pub stdout: Seq<u8>,
    pub stderr: Seq<u8>,
}

impl View for Output {
    type V = OutputView;

    open spec fn view(&self) -> OutputView {
        OutputView { code: self.status.code, stdout: self.stdout@, stderr: self.stderr@ }
    }
}

impl Output {
    /// A copy that holds the same status and the same bytes.
    pub fn duplicate(&self) -> (r: Output)
        ensures
            r@ == self@,
    {
        Output {
            status: ExitStatus { code: self.status.code },
            stdout: self.stdout.clone(),
            stderr: self.stderr.clone(),
        }
    }
}

/// What a caller wants done when an invocation exits with a non-zero status.
#[derive(Clone, Copy, Debug, PartialEq, Eq)]
pub enum ExitPolicy {
    /// The failure is fatal: the process must stop.
    Abort,
    /// The failure is returned to the caller as an error.
    Propagate,
    /// The output is returned as it is, status included; the caller judges.
    Report,
}

/// One planned invocation of the container runtime: the arguments that
/// follow the runtime's own name, and the policy for a non-zero exit.
#[derive(Clone, Debug, PartialEq, Eq)]
pub struct Invocation {
    pub args: Vec<String>,
    pub policy: ExitPolicy,
}

/// An `Invocation` as plain values.
pub struct InvocationView {
    pub args: Seq<Seq<char>>,
    pub policy: ExitPolicy,
}

impl View for Invocation {
    type V = InvocationView;

    open spec fn view(&self) -> InvocationView {
        InvocationView { args: self.args.deep_view(), policy: self.policy }
    }
}

impl Invocation {
    /// A copy with the same arguments and the same policy.
    pub fn duplicate(&self) -> (r: Invocation)
        ensures
            r@ == self@,
    {
        let mut args: Vec<String> = Vec::new();
        let mut i: usize = 0;
        while i < self.args.len()
            invariant
                i <= self.args.len(),
                args.deep_view() == self.args.deep_view().subrange(0, i as int),
            decreases self.args.len() - i,
        {
            push_arg(&mut args, self.args[i].as_str());
            i = i + 1;
        }
        assert(args.deep_view() =~= self.args.deep_view());
        Invocation { args, policy: self.policy }
    }
}

/// The invocation of the runtime with `args`, for callers to whom anything
/// but success is fatal.
pub fn cmd(args: Vec<&str>) -> (r: Invocation)
    ensures
        r@ == (InvocationView { args: strs(args@), policy: ExitPolicy::Abort }),
{
    let mut owned: Vec<String> = Vec::new();
    let mut i: usize = 0;
    while i < args.len()
        invariant
            i <= args.len(),
            owned.deep_view() == strs(args@).subrange(0, i as int),
        decreases args.len() - i,
    {
        push_arg(&mut owned, args[i]);
        i = i + 1;
    }
    assert(owned.deep_view() =~= strs(args@));
    Invocation { args: owned, policy: ExitPolicy::Abort }
}

/// How an attempt to run an invocation ended.
#[derive(Clone, Debug, PartialEq, Eq)]
pub enum Attempt {
    /// The process ran to its end.
    Spawned(Output),
    /// The executable could not be started; the text says why.
    NotSpawned(String),
}

/// An attempt judged under an exit policy.
#[derive(Clone, Debug, PartialEq, Eq)]
pub enum Settled {
    /// The output is handed to the caller.
    Finished(Output),
    /// The caller gets a recoverable error.
    Refused(Error),
    /// The process must stop with this error.
    Fatal(Error),
}

/// What `settle` makes of an attempt under a policy.
pub open spec fn settled(policy: ExitPolicy, attempt: Attempt) -> Settled {
    match attempt {
        Attempt::NotSpawned(reason) => Settled::Refused(Error::Launch { reason }),
        Attempt::Spawned(output) => if output.status.succeeded() || policy == ExitPolicy::Report {
            Settled::Finished(output)
        } else if policy == ExitPolicy::Abort {
            Settled::Fatal(Error::Exit(output))
        } else {
            Settled::Refused(Error::Exit(output))
        },
    }
}

/// Judges an attempt under `policy`. A failed launch is always a recoverable
/// error of its own kind. A non-zero exit is never dropped: it stops the
/// process, becomes an error, or reaches the caller inside the output.
pub fn settle(policy: ExitPolicy, attempt: Attempt) -> (r: Settled)
    ensures
        r == settled(policy, attempt),
{
    match attempt {
        Attempt::NotSpawned(reason) => Settled::Refused(Error::Launch { reason }),
        Attempt::Spawned(output) => {
            if output.status.success() {
                Settled::Finished(output)
            } else {
                match policy {
                    ExitPolicy::Report => Settled::Finished(output),
                    ExitPolicy::Abort => Settled::Fatal(Error::Exit(output)),
                    ExitPolicy::Propagate => Settled::Refused(Error::Exit(output)),
                }
            }
        },
    }
}

} // verus!
