//! Builds inside a builder container: what to run, what the outcome is, and
//! how the cache keeps every distinct build to one run.

use vstd::prelude::*;
use vstd::string::*;
use vstd::utf8::*;
use crate::cache::{copy_outcome, outcome_view, BuildCache, BuildKey, BuildResult, Ticket};
use crate::model::{timed, BuildKeyView, BuildResultView, OutcomeView, TicketView};
use crate::error::{Error, ErrorView};
use crate::process::{Attempt, ExitPolicy, Invocation, InvocationView, Output, OutputView};
use crate::text::{decoded, glue, last_line, last_solid_line, push_arg, underscored, with_underscores};

verus! {

/// Where the project's sources are mounted inside the builder container.
pub const BUILD_DIR: &'static str = "/opt/src";

/// The directory below the target directory that a build with `features`
/// writes to, so that builds with different features do not mix.
pub open spec fn target_ext(features: Seq<char>) -> Seq<char> {
    "docker/"@ + underscored(features)
}

/// The arguments that build the project mounted from `projdir` with
/// `features` inside `image`, writing below `target_ext`.
pub open spec fn build_args(
    target_ext: Seq<char>,
    projdir: Seq<char>,
    features: Seq<char>,
    image: Seq<char>,
) -> Seq<Seq<char>> {
    seq![
        "run"@,
        "--rm"@,
        "--volume"@,
        projdir + ":"@ + BUILD_DIR@,
        "--workdir"@,
        BUILD_DIR@,
        "--env"@,
        "CARGO_HOME="@ + BUILD_DIR@ + "/target/.cargo"@,
        image,
        "cargo"@,
        "build"@,
        "--release"@,
        "--features"@,
        features,
        "--target-dir"@,
        BUILD_DIR@ + "/target/"@ + target_ext,
    ]
}

/// Where on the host the build of `projdir` with `features` leaves the
/// binary `bin_name`.
pub open spec fn artifact_path(projdir: Seq<char>, features: Seq<char>, bin_name: Seq<char>) -> Seq<
    char,
> {
    projdir + "/target/"@ + target_ext(features) + "/release/"@ + bin_name
}

/// The arguments that build the image `name` from the directory `dir`.
pub open spec fn image_args(dir: Seq<char>, name: Seq<char>) -> Seq<Seq<char>> {
    seq!["build"@, "--tag"@, name, dir]
}

/// The identifier that an image build printed: the last line of its
/// standard output that is not blank, trimmed. There is none if the build
/// failed, printed no text, or printed only whitespace.
pub open spec fn image_id(built: OutputView) -> Option<Seq<char>> {
    if built.code == Some(0i32) && valid_utf8(built.stdout) {
        last_solid_line(decode_utf8(built.stdout))
    } else {
        None
    }
}

/// The invocation that builds a project inside a builder container.
pub fn build_in_container(target_ext: &str, projdir: &str, features: &str, image: &str) -> (r:
    Invocation)
    ensures
        r.policy == ExitPolicy::Propagate,
        r.args.deep_view() == build_args(target_ext@, projdir@, features@, image@),
{
    let mut volume = glue(projdir, ":");
    volume.append(BUILD_DIR);
    let mut cargo_env = glue("CARGO_HOME=", BUILD_DIR);
    cargo_env.append("/target/.cargo");
    let mut imgtarget = glue(BUILD_DIR, "/target/");
    imgtarget.append(target_ext);
    let mut args: Vec<String> = Vec::new();
    push_arg(&mut args, "run");
    push_arg(&mut args, "--rm");
    push_arg(&mut args, "--volume");
    push_arg(&mut args, volume.as_str());
    push_arg(&mut args, "--workdir");
    push_arg(&mut args, BUILD_DIR);
    push_arg(&mut args, "--env");
    push_arg(&mut args, cargo_env.as_str());
    push_arg(&mut args, image);
    push_arg(&mut args, "cargo");
    push_arg(&mut args, "build");
    push_arg(&mut args, "--release");
    push_arg(&mut args, "--features");
    push_arg(&mut args, features);
    push_arg(&mut args, "--target-dir");
    push_arg(&mut args, imgtarget.as_str());
    Invocation { args, policy: ExitPolicy::Propagate }
}

/// What a build leaves behind when it succeeds.
#[derive(Clone, Debug, PartialEq, Eq)]
pub enum Product {
    /// A binary at this path on the host.
    Artifact(String),
    /// An image, whose identifier the build prints.
    Image,
}

/// One build: its key in the cache, the invocation that runs it, and what
/// it leaves behind.
#[derive(Debug)]
pub struct BuildJob {
    pub key: BuildKey,
    pub build: Invocation,
    pub product: Product,
}

/// The feature selector that a build runs with: the one given, or the
/// empty one.
pub open spec fn selector(features: Option<&str>) -> Seq<char> {
    match features {
        Some(f) => f@,
        None => ""@,
    }
}

impl BuildJob {
    /// Whether the job is the build of the binary `bin_name` of the project
    /// in `projdir` with the selector `features` inside `image`: keyed by
    /// the three, run by the build invocation, leaving the binary where the
    /// build puts it.
    pub open spec fn builds_target(
        self,
        bin_name: Seq<char>,
        projdir: Seq<char>,
        features: Seq<char>,
        image: Seq<char>,
    ) -> bool {
        &&& self.key@ == (BuildKeyView {
            project_dir: projdir,
            features: underscored(features),
            image,
        })
        &&& self.build@ == (InvocationView {
            args: build_args(target_ext(features), projdir, features, image),
            policy: ExitPolicy::Propagate,
        })
        &&& self.product matches Product::Artifact(path)
        &&& path@ == artifact_path(projdir, features, bin_name)
    }

    /// Whether the job is the build of the image `name` from `dir`.
    pub open spec fn builds_image(self, dir: Seq<char>, name: Seq<char>) -> bool {
        &&& self.key@ == (BuildKeyView {
            project_dir: dir,
            features: underscored(""@),
            image: name,
        })
        &&& self.build@ == (InvocationView {
            args: image_args(dir, name),
            policy: ExitPolicy::Propagate,
        })
        &&& self.product is Image
    }
}

/// The build of the binary `bin_name` of the project in `projdir`, with
/// `features` or with none, inside `image`.
pub fn build_target(bin_name: &str, projdir: &str, features: Option<&str>, image: &str) -> (r:
    BuildJob)
    ensures
        r.builds_target(bin_name@, projdir@, selector(features), image@),
{
    let fstr = match features {
        Some(f) => f,
        None => "",
    };
    let normal = with_underscores(fstr);
    let ext = glue("docker/", normal.as_str());
    let build = build_in_container(ext.as_str(), projdir, fstr, image);
    let mut bin = glue(projdir, "/target/");
    bin.append(ext.as_str());
    bin.append("/release/");
    bin.append(bin_name);
    BuildJob { key: BuildKey::new(projdir, fstr, image), build, product: Product::Artifact(bin) }
}

/// The build of the image `name` from the directory `dir`.
pub fn build_image(dir: &str, name: &str) -> (r: BuildJob)
    ensures
        r.builds_image(dir@, name@),
{
    let mut args: Vec<String> = Vec::new();
    push_arg(&mut args, "build");
    push_arg(&mut args, "--tag");
    push_arg(&mut args, name);
    push_arg(&mut args, dir);
    assert(args.deep_view() =~= image_args(dir@, name@));
    BuildJob {
        key: BuildKey::new(dir, "", name),
        build: Invocation { args, policy: ExitPolicy::Propagate },
        product: Product::Image,
    }
}

/// What to do next about a build.
#[derive(Debug, PartialEq, Eq)]
pub enum Step {
    /// Run this invocation, then hand its output to `finish`.
    Run(Invocation),
    /// Another caller is running the build; ask again once it has reported.
    Wait,
    /// The build has ended with this outcome.
    Done(Result<BuildResult, Error>),
}

impl BuildJob {
    /// How the build ended, judged by what it left behind: the artifact's
    /// path or the image's identifier if it succeeded, `Build` with the
    /// output if it did not, `Malformed` if an image build succeeded but
    /// printed no identifier.
    pub open spec fn outcome_of(self, built: OutputView) -> OutcomeView {
        if built.code != Some(0i32) {
            Err(ErrorView::Build(built))
        } else {
            match self.product {
                Product::Artifact(path) => Ok(BuildResultView::Artifact(path@)),
                Product::Image => match image_id(built) {
                    Some(id) => Ok(BuildResultView::Image(id)),
                    None => Err(ErrorView::Malformed(built)),
                },
            }
        }
    }

    /// How the build ended, judged by what it left behind.
    pub fn outcome(&self, built: &Output) -> (r: Result<BuildResult, Error>)
        ensures
            outcome_view(r) == self.outcome_of(built@),
    {
        if !built.status.success() {
            return Err(Error::Build(built.duplicate()));
        }
        match &self.product {
            Product::Artifact(path) => Ok(BuildResult::Artifact(path.clone())),
            Product::Image => {
                match decoded(&built.stdout) {
                    Some(text) => match last_line(text.as_str()) {
                        Some(id) => Ok(BuildResult::Image(id)),
                        None => Err(Error::Malformed(built.duplicate())),
                    },
                    None => Err(Error::Malformed(built.duplicate())),
                }
            },
        }
    }

    /// What the cache's answer means for the caller: run the build, wait,
    /// or take the outcome.
    pub open spec fn step_of(self, ticket: TicketView, step: Step) -> bool {
        match ticket {
            TicketView::Build => step matches Step::Run(run) && run@ == self.build@,
            TicketView::Wait => step is Wait,
            TicketView::Done(outcome) => step matches Step::Done(o) && outcome_view(o) == outcome,
        }
    }

    /// Whether `r` answers a caller that has waited for `waited` under the
    /// bound `limit`, where the cache's ticket is `ticket`: the step that
    /// the ticket calls for, or `CacheUnavailable` once the wait is over.
    pub open spec fn answers(
        self,
        ticket: TicketView,
        limit: Option<u64>,
        waited: u64,
        r: Result<Step, Error>,
    ) -> bool {
        match timed(ticket, limit, waited) {
            Ok(ticket) => r matches Ok(step) && self.step_of(ticket, step),
            Err(error) => r matches Err(e) && e@ == error,
        }
    }

    /// Asks `cache` for the build, on behalf of a caller that has waited
    /// for `waited` and will not wait longer than `limit`.
    pub fn start(&self, cache: &mut BuildCache, waited: u64, limit: Option<u64>) -> (r: Result<
        Step,
        Error,
    >)
        ensures
            final(cache)@ == old(cache)@.begin(self.key@),
            final(cache)@.wf(),
            self.answers(old(cache)@.ticket(self.key@), limit, waited, r),
    {
        match cache.request(&self.key, waited, limit) {
            Ok(Ticket::Build) => Ok(Step::Run(self.build.duplicate())),
            Ok(Ticket::Wait) => Ok(Step::Wait),
            Ok(Ticket::Done(outcome)) => Ok(Step::Done(outcome)),
            Err(e) => Err(e),
        }
    }

    /// How the build ended, judged by the attempt to run it: a build that
    /// could not be started has failed with `Launch`; one that ran is judged
    /// by what it left behind.
    pub open spec fn ended(self, attempt: Attempt) -> OutcomeView {
        match attempt {
            Attempt::NotSpawned(reason) => Err(ErrorView::Launch { reason: reason@ }),
            Attempt::Spawned(built) => self.outcome_of(built@),
        }
    }

    /// Judges the attempt to run the build and reports the outcome to
    /// `cache`, where every caller for the same key will find it.
    pub fn finish(&self, cache: &mut BuildCache, attempt: &Attempt) -> (r: Result<
        BuildResult,
        Error,
    >)
        ensures
            outcome_view(r) == self.ended(*attempt),
            final(cache)@ == old(cache)@.complete(self.key@, self.ended(*attempt)),
            final(cache)@.wf(),
    {
        let outcome = match attempt {
            Attempt::NotSpawned(reason) => Err(Error::Launch { reason: reason.clone() }),
            Attempt::Spawned(built) => self.outcome(built),
        };
        let kept = copy_outcome(&outcome);
        let _ = cache.complete(&self.key, kept);
        outcome
    }
}

/// Asks `cache` for the image `name` built from `dir`: the job, and what
/// to do next about it.
pub fn build_image_sync(
    cache: &mut BuildCache,
    dir: &str,
    name: &str,
    waited: u64,
    limit: Option<u64>,
) -> (r: (BuildJob, Result<Step, Error>))
    ensures
        r.0.builds_image(dir@, name@),
        final(cache)@ == old(cache)@.begin(r.0.key@),
        final(cache)@.wf(),
        r.0.answers(old(cache)@.ticket(r.0.key@), limit, waited, r.1),
{
    let job = build_image(dir, name);
    let step = job.start(cache, waited, limit);
    (job, step)
}

} // verus!
