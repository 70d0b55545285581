//! The life of one disposable container: started, used, removed once.

use vstd::prelude::*;
use vstd::string::*;
use vstd::utf8::*;
use crate::error::{Error, ErrorView};
use crate::path::{install_path, install_target};
use crate::process::{ExitPolicy, Invocation, InvocationView, Output, OutputView};
use crate::text::{decoded, glue, push_arg, strs, trim, trimmed};

verus! {

/// The image that containers are started from unless another is named.
pub const DOCKER_IMAGE: &'static str = "docker.io/debian:bullseye-slim";

/// The user that commands run as unless another is named.
pub const ROOT: &'static str = "root";

/// The arguments that start a container from `image` and keep it alive.
pub open spec fn launch_args(image: Seq<char>) -> Seq<Seq<char>> {
    seq!["run"@, "--detach"@, image, "sleep"@, "15m"@]
}

/// The arguments that run `command` as `user` inside container `id`.
pub open spec fn exec_args(id: Seq<char>, user: Seq<char>, command: Seq<Seq<char>>) -> Seq<
    Seq<char>,
> {
    seq!["exec"@, "--user"@, user, "-i"@, id] + command
}

/// `command` with a value piped in ahead of it.
pub open spec fn piped(value: Seq<char>, command: Seq<Seq<char>>) -> Seq<Seq<char>> {
    seq!["echo"@, value, "|"@] + command
}

/// The arguments that copy the host file `from` to `to` inside container `id`.
pub open spec fn cp_args(id: Seq<char>, from: Seq<char>, to: Seq<char>) -> Seq<Seq<char>> {
    seq!["cp"@, from, id + ":"@ + to]
}

/// The arguments that make `path` executable.
pub open spec fn chmod_command(path: Seq<char>) -> Seq<Seq<char>> {
    seq!["chmod"@, "755"@, path]
}

/// The arguments that remove container `id`, running or not.
pub open spec fn rm_args(id: Seq<char>) -> Seq<Seq<char>> {
    seq!["rm"@, "--force"@, id]
}

/// The identifier that the runtime reported for a started container: the
/// standard output, trimmed, of a launch that succeeded. There is none if
/// the launch failed, printed no text, or printed only whitespace.
pub open spec fn started_id(started: OutputView) -> Option<Seq<char>> {
    if started.code == Some(0i32) && valid_utf8(started.stdout) && trim(
        decode_utf8(started.stdout),
    ).len() > 0 {
        Some(trim(decode_utf8(started.stdout)))
    } else {
        None
    }
}

/// A container as plain values.
pub struct ContainerView {
    pub id: Seq<char>,
    pub running: bool,
}

impl ContainerView {
    /// The container once it has been torn down.
    pub open spec fn torn_down(self) -> ContainerView {
        ContainerView { running: false, ..self }
    }

    /// Whether `plan` deploys the artifact at `src_bin` into the container:
    /// the destination is the artifact's place under the binary directory,
    /// the copy goes there, and the mark makes the file there executable.
    /// A failure of either invocation is an error for the caller.
    pub open spec fn deploys(self, src_bin: Seq<char>, plan: Deployment) -> bool {
        &&& plan.source@ == src_bin
        &&& install_target(src_bin) == Some(plan.dest@)
        &&& plan.copy@ == (InvocationView {
            args: cp_args(self.id, src_bin, plan.dest@),
            policy: ExitPolicy::Propagate,
        })
        &&& plan.mark@ == (InvocationView {
            args: exec_args(self.id, ROOT@, chmod_command(plan.dest@)),
            policy: ExitPolicy::Propagate,
        })
    }

    /// Whether `r` is the answer to a request to deploy the artifact at
    /// `src_bin`: a plan while the container runs and the path names a
    /// file, `Terminated` after teardown, `NoFileName` otherwise.
    pub open spec fn deployment(self, src_bin: Seq<char>, r: Result<Deployment, Error>) -> bool {
        match r {
            Ok(plan) => self.running && self.deploys(src_bin, plan),
            Err(e) => if !self.running {
                e@ == (ErrorView::Terminated { id: self.id })
            } else {
                install_target(src_bin) is None && e@ == (ErrorView::NoFileName { path: src_bin })
            },
        }
    }
}

/// Where a container stands in its life. A container runs from the moment
/// its identifier is known; removal ends it for good.
#[derive(Clone, Copy, Debug, PartialEq, Eq)]
pub enum Lifecycle {
    Running,
    Terminated,
}

/// One sandbox, owned by whoever started it. Its identifier is never empty.
#[derive(Debug)]
pub struct Container {
    id: String,
    state: Lifecycle,
}

/// One deployment: the artifact on the host, its place inside the
/// container, and the two invocations that bring it there.
#[derive(Clone, Debug, PartialEq, Eq)]
pub struct Deployment {
    /// The path of the artifact on the host.
    pub source: String,
    /// The path of the deployed file inside the container.
    pub dest: String,
    /// Copies the artifact to `dest`.
    pub copy: Invocation,
    /// Makes the file at `dest` executable.
    pub mark: Invocation,
}

impl View for Container {
    type V = ContainerView;

    closed spec fn view(&self) -> ContainerView {
        ContainerView { id: self.id@, running: self.state == Lifecycle::Running }
    }
}

impl Container {
    #[verifier::type_invariant]
    spec fn named(self) -> bool {
        self.id@.len() > 0
    }

    /// The invocation that starts a container from `image`.
    pub fn launch(image: &str) -> (r: Invocation)
        ensures
            r.policy == ExitPolicy::Propagate,
            r.args.deep_view() == launch_args(image@),
    {
        let mut args: Vec<String> = Vec::new();
        push_arg(&mut args, "run");
        push_arg(&mut args, "--detach");
        push_arg(&mut args, image);
        push_arg(&mut args, "sleep");
        push_arg(&mut args, "15m");
        Invocation { args, policy: ExitPolicy::Propagate }
    }

    /// The container that a launch started, from what the launch printed.
    /// Fails with `Exit` if the launch did not succeed and with `Malformed`
    /// if its output holds no identifier.
    pub fn new(started: &Output) -> (r: Result<Container, Error>)
        ensures
            match r {
                Ok(c) => started_id(started@) == Some(c@.id) && c@.running && c@.id.len() > 0,
                Err(e) => started_id(started@) is None && e@ == if started.status.succeeded() {
                    ErrorView::Malformed(started@)
                } else {
                    ErrorView::Exit(started@)
                },
            },
    {
        if !started.status.success() {
            return Err(Error::Exit(started.duplicate()));
        }
        match decoded(&started.stdout) {
            Some(text) => {
                let id = trimmed(text.as_str());
                if id.as_str().is_empty() {
                    Err(Error::Malformed(started.duplicate()))
                } else {
                    Ok(Container { id, state: Lifecycle::Running })
                }
            },
            None => Err(Error::Malformed(started.duplicate())),
        }
    }

    /// The identifier that the runtime gave the container.
    pub fn id(&self) -> (r: &str)
        ensures
            r@ == self@.id,
            r@.len() > 0,
    {
        proof {
            use_type_invariant(self);
        }
        self.id.as_str()
    }

    /// Where the container stands in its life.
    pub fn state(&self) -> (r: Lifecycle)
        ensures
            r == if self@.running {
                Lifecycle::Running
            } else {
                Lifecycle::Terminated
            },
    {
        self.state
    }

    /// Whether the container has not been torn down yet.
    pub fn is_running(&self) -> (r: bool)
        ensures
            r == self@.running,
    {
        match self.state {
            Lifecycle::Running => true,
            Lifecycle::Terminated => false,
        }
    }

    /// The error that answers any request made after teardown.
    fn gone(&self) -> (e: Error)
        ensures
            e@ == (ErrorView::Terminated { id: self@.id }),
    {
        Error::Terminated { id: self.id.clone() }
    }

    /// Where the artifact at `src_bin` goes inside a container: its final
    /// path segment under the binary directory. Fails with `NoFileName` if
    /// the path has no segment.
    pub fn binary_path(&self, src_bin: &str) -> (r: Result<String, Error>)
        ensures
            match r {
                Ok(dest) => install_target(src_bin@) == Some(dest@),
                Err(e) => install_target(src_bin@) is None && e@ == (ErrorView::NoFileName {
                    path: src_bin@,
                }),
            },
    {
        match install_path(src_bin) {
            Some(dest) => Ok(dest),
            None => Err(Error::NoFileName { path: src_bin.to_owned() }),
        }
    }

    /// The invocation that runs `cmd` inside the container as `user`. The
    /// output is for the caller to judge, whatever the exit status.
    pub fn exec_as(&self, user: &str, cmd: Vec<&str>) -> (r: Result<Invocation, Error>)
        ensures
            match r {
                Ok(inv) => self@.running && inv.policy == ExitPolicy::Report
                    && inv.args.deep_view() == exec_args(self@.id, user@, strs(cmd@)),
                Err(e) => !self@.running && e@ == (ErrorView::Terminated { id: self@.id }),
            },
    {
        if !self.is_running() {
            return Err(self.gone());
        }
        let mut args: Vec<String> = Vec::new();
        push_arg(&mut args, "exec");
        push_arg(&mut args, "--user");
        push_arg(&mut args, user);
        push_arg(&mut args, "-i");
        push_arg(&mut args, self.id.as_str());
        let ghost head = args.deep_view();
        let mut i: usize = 0;
        while i < cmd.len()
            invariant
                i <= cmd.len(),
                args.deep_view() == head + strs(cmd@).subrange(0, i as int),
            decreases cmd.len() - i,
        {
            push_arg(&mut args, cmd[i]);
            i = i + 1;
        }
        Ok(Invocation { args, policy: ExitPolicy::Report })
    }

    /// The invocation that runs `cmd` inside the container as root.
    pub fn exec(&self, cmd: Vec<&str>) -> (r: Result<Invocation, Error>)
        ensures
            match r {
                Ok(inv) => self@.running && inv.policy == ExitPolicy::Report
                    && inv.args.deep_view() == exec_args(self@.id, ROOT@, strs(cmd@)),
                Err(e) => !self@.running && e@ == (ErrorView::Terminated { id: self@.id }),
            },
    {
        self.exec_as(ROOT, cmd)
    }

    /// The invocation that runs `cmd` as `user` with `pass` piped in ahead
    /// of it, for commands that prompt for a password.
    pub fn exec_w_pass<'a>(&self, user: &'a str, pass: &'a str, cmd: Vec<&'a str>) -> (r: Result<
        Invocation,
        Error,
    >)
        ensures
            match r {
                Ok(inv) => self@.running && inv.policy == ExitPolicy::Report
                    && inv.args.deep_view() == exec_args(self@.id, user@, piped(pass@, strs(cmd@))),
                Err(e) => !self@.running && e@ == (ErrorView::Terminated { id: self@.id }),
            },
    {
        let mut ncmd: Vec<&'a str> = Vec::new();
        ncmd.push("echo");
        ncmd.push(pass);
        ncmd.push("|");
        let mut i: usize = 0;
        while i < cmd.len()
            invariant
                i <= cmd.len(),
                strs(ncmd@) == seq!["echo"@, pass@, "|"@] + strs(cmd@).subrange(0, i as int),
            decreases cmd.len() - i,
        {
            let ghost before = ncmd@;
            ncmd.push(cmd[i]);
            i = i + 1;
            assert(strs(ncmd@) =~= strs(before).push(cmd@[i as int - 1]@));
        }
        self.exec_as(user, ncmd)
    }

    /// The invocation that copies the host file `from` to the absolute path
    /// `to` inside the container.
    pub fn cp(&self, from: &str, to: &str) -> (r: Result<Invocation, Error>)
        ensures
            match r {
                Ok(inv) => self@.running && inv.policy == ExitPolicy::Propagate
                    && inv.args.deep_view() == cp_args(self@.id, from@, to@),
                Err(e) => !self@.running && e@ == (ErrorView::Terminated { id: self@.id }),
            },
    {
        if !self.is_running() {
            return Err(self.gone());
        }
        let mut remote = glue(self.id.as_str(), ":");
        remote.append(to);
        let mut args: Vec<String> = Vec::new();
        push_arg(&mut args, "cp");
        push_arg(&mut args, from);
        push_arg(&mut args, remote.as_str());
        Ok(Invocation { args, policy: ExitPolicy::Propagate })
    }

    /// Judges what the copy of `from` to `to` left behind: a non-zero exit
    /// is an error that names the source, the destination and the container.
    pub fn copied(&self, from: &str, to: &str, output: &Output) -> (r: Result<(), Error>)
        ensures
            r is Ok <==> output.status.succeeded(),
            r matches Err(e) ==> e@ == (ErrorView::Copy {
                from: from@,
                to: to@,
                id: self@.id,
                output: output@,
            }),
    {
        if output.status.success() {
            Ok(())
        } else {
            Err(
                Error::Copy {
                    from: from.to_owned(),
                    to: to.to_owned(),
                    id: self.id.clone(),
                    output: output.duplicate(),
                },
            )
        }
    }

    /// The plan that deploys the artifact at `src_bin`: copy it to its place
    /// under the binary directory, then set its permission bits, since the
    /// copy need not keep those of the source.
    pub fn copy_binary(&self, src_bin: &str) -> (r: Result<Deployment, Error>)
        ensures
            self@.deployment(src_bin@, r),
    {
        if !self.is_running() {
            return Err(self.gone());
        }
        let dest = match self.binary_path(src_bin) {
            Ok(dest) => dest,
            Err(e) => {
                return Err(e);
            },
        };
        let copy = match self.cp(src_bin, dest.as_str()) {
            Ok(copy) => copy,
            Err(e) => {
                return Err(e);
            },
        };
        let mut chmod: Vec<&str> = Vec::new();
        chmod.push("chmod");
        chmod.push("755");
        chmod.push(dest.as_str());
        assert(strs(chmod@) =~= chmod_command(dest@));
        let mark = match self.exec(chmod) {
            Ok(run) => Invocation { args: run.args, policy: ExitPolicy::Propagate },
            Err(e) => {
                return Err(e);
            },
        };
        Ok(Deployment { source: src_bin.to_owned(), dest, copy, mark })
    }

    /// Tears the container down: the invocation that removes it by force.
    /// Only the first request is granted; from then on the container is
    /// terminated and every request fails.
    pub fn kill(&mut self) -> (r: Result<Invocation, Error>)
        ensures
            final(self)@ == old(self)@.torn_down(),
            match r {
                Ok(inv) => old(self)@.running && inv.policy == ExitPolicy::Abort
                    && inv.args.deep_view() == rm_args(old(self)@.id),
                Err(e) => !old(self)@.running && e@ == (ErrorView::Terminated {
                    id: old(self)@.id,
                }),
            },
    {
        if !self.is_running() {
            return Err(self.gone());
        }
        let mut args: Vec<String> = Vec::new();
        push_arg(&mut args, "rm");
        push_arg(&mut args, "--force");
        push_arg(&mut args, self.id.as_str());
        proof {
            use_type_invariant(&*self);
        }
        self.state = Lifecycle::Terminated;
        Ok(Invocation { args, policy: ExitPolicy::Abort })
    }

    /// What is left to do when the owner lets go of the container: the
    /// removal, unless it has been requested before.
    pub fn release(&mut self) -> (r: Option<Invocation>)
        ensures
            final(self)@ == old(self)@.torn_down(),
            r is Some <==> old(self)@.running,
            r matches Some(inv) ==> inv.policy == ExitPolicy::Abort && inv.args.deep_view()
                == rm_args(old(self)@.id),
    {
        match self.kill() {
            Ok(inv) => Some(inv),
            Err(_) => None,
        }
    }

    /// Judges what the removal left behind: a non-zero exit means a leaked
    /// container, an error that must end the process.
    pub fn removed(&self, output: &Output) -> (r: Result<(), Error>)
        ensures
            r is Ok <==> output.status.succeeded(),
            r matches Err(e) ==> e.fatal() && e@ == (ErrorView::Teardown {
                id: self@.id,
                output: output@,
            }),
    {
        if output.status.success() {
            Ok(())
        } else {
            Err(Error::Teardown { id: self.id.clone(), output: output.duplicate() })
        }
    }
}

/// One thing an owner does with a container before letting go of it.
pub enum Use {
    /// Runs a command inside the container.
    Exec,
    /// Copies a file or deploys an artifact into the container.
    Copy,
    /// Tears the container down.
    Kill,
}

/// The container after its owner has done `uses`, in order.
pub open spec fn used(container: ContainerView, uses: Seq<Use>) -> ContainerView
    decreases uses.len(),
{
    if uses.len() == 0 {
        container
    } else if uses.last() is Kill {
        used(container, uses.drop_last()).torn_down()
    } else {
        used(container, uses.drop_last())
    }
}

/// How many removals `kill` grants while the owner does `uses`.
pub open spec fn removals(container: ContainerView, uses: Seq<Use>) -> nat
    decreases uses.len(),
{
    if uses.len() == 0 {
        0
    } else {
        let granted: nat = if uses.last() is Kill && used(container, uses.drop_last()).running {
            1
        } else {
            0
        };
        removals(container, uses.drop_last()) + granted
    }
}

/// How many removals are granted in all once the owner, having done
/// `uses`, lets go of the container and `release` is asked.
pub open spec fn removals_in_all(container: ContainerView, uses: Seq<Use>) -> nat {
    let at_release: nat = if used(container, uses).running {
        1
    } else {
        0
    };
    removals(container, uses) + at_release
}

/// Whatever its owner does with a running container, and whether or not
/// the owner tears it down, exactly one removal is granted by the time the
/// container has been let go of, and it is then terminated under the
/// identifier it was started with.
pub proof fn law_removed_exactly_once(container: ContainerView, uses: Seq<Use>)
    requires
        container.running,
    ensures
        removals_in_all(container, uses) == 1,
        used(container, uses).id == container.id,
        used(container, uses).torn_down() == container.torn_down(),
        removals(container, uses) == 1 <==> !used(container, uses).running,
    decreases uses.len(),
{
    if uses.len() > 0 {
        law_removed_exactly_once(container, uses.drop_last());
    }
}

} // verus!
