//! Build and deploy: from the name of a binary to a running container that
//! holds it.

use vstd::prelude::*;
use vstd::string::*;
use crate::builder::{build_target, selector, BuildJob};
use crate::container::{launch_args, started_id, Container, Deployment, DOCKER_IMAGE};
use crate::error::{Error, ErrorView};
use crate::process::{ExitPolicy, Invocation, InvocationView, Output};
use crate::text::glue;

verus! {

/// The directory of the project: `projdir` below the working directory
/// `pwd`, or `pwd` itself where none is given.
pub open spec fn project_dir(pwd: Seq<char>, projdir: Option<&str>) -> Seq<char> {
    match projdir {
        Some(pd) => pwd + "/"@ + pd@,
        None => pwd,
    }
}

/// What is known before anything runs: the build to ask the cache for, and
/// the invocation that starts the sandbox.
#[derive(Debug)]
pub struct Plan {
    pub job: BuildJob,
    pub launch: Invocation,
}

/// A container that has been started for a deployment, with the plan that
/// deploys the artifact into it or the reason why there is none. Either
/// way the container is the caller's to tear down.
#[derive(Debug)]
pub struct Rollout {
    pub container: Container,
    pub deployment: Result<Deployment, Error>,
}

/// Plans the build of the binary `bin_name` and the sandbox it is deployed
/// into. The project is `projdir` below the working directory `pwd`, built
/// with `features` inside `image`.
pub fn build_and_deploy(
    bin_name: &str,
    pwd: &str,
    projdir: Option<&str>,
    features: Option<&str>,
    image: &str,
) -> (r: Plan)
    ensures
        r.job.builds_target(bin_name@, project_dir(pwd@, projdir), selector(features), image@),
        r.launch@ == (InvocationView {
            args: launch_args(DOCKER_IMAGE@),
            policy: ExitPolicy::Propagate,
        }),
{
    let pd = match projdir {
        Some(pd) => {
            let mut dir = glue(pwd, "/");
            dir.append(pd);
            dir
        },
        None => pwd.to_owned(),
    };
    Plan {
        job: build_target(bin_name, pd.as_str(), features, image),
        launch: Container::launch(DOCKER_IMAGE),
    }
}

/// Takes up the sandbox that the launch started and plans the deployment
/// of `artifact` into it. Without a container there is nothing to deploy
/// into: the launch's failure is returned. With one, the container is
/// handed out whether or not the deployment can be planned.
pub fn roll_out(started: &Output, artifact: &str) -> (r: Result<Rollout, Error>)
    ensures
        match r {
            Ok(rollout) => started_id(started@) == Some(rollout.container@.id)
                && rollout.container@.running && rollout.container@.deployment(
                artifact@,
                rollout.deployment,
            ),
            Err(e) => started_id(started@) is None && e@ == if started.status.succeeded() {
                ErrorView::Malformed(started@)
            } else {
                ErrorView::Exit(started@)
            },
        },
{
    match Container::new(started) {
        Ok(container) => {
            let deployment = container.copy_binary(artifact);
            Ok(Rollout { container, deployment })
        },
        Err(e) => Err(e),
    }
}

} // verus!
