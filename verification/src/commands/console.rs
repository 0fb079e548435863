use vstd::prelude::*;

use crate::config::{ApplicationConfig, Config, Console, Release};
use crate::config;
use crate::errors::Error;
use crate::kubeclient;

verus! {

/// Everything needed to run a console command for a release: the driver
/// queries a running pod with `pod_args`, then runs `command` inside
/// `container` of that pod via [`exec_args`].
#[derive(Debug)]
pub struct ConsolePlan {
    /// The context the invocations run under.
    pub context: String,
    /// The invocation that picks a running console pod.
    pub pod_args: Vec<String>,
    /// The container the command runs in.
    pub container: String,
    /// The command to run.
    pub command: Vec<String>,
}

/// `plan` is the console plan for `cmd` against the application at `j`:
/// the pod query combines the application's own selector with the
/// console's, and the command targets the console's container.
pub open spec fn is_console_plan(
    plan: ConsolePlan,
    c: Config,
    release: Release,
    cmd: Seq<String>,
    j: int,
) -> bool {
    &&& config::first_application_match(c.applications@, release.application@, j)
    &&& (c.applications@[j].config matches ApplicationConfig::Kubectl { console, selector }
        && console matches Some(cons) && cons matches Console::Exec {
        command: ccmd,
        container,
        selector: csel,
    } && {
        &&& plan.context@ == release.context@
        &&& plan.container@ == container@
        &&& kubeconfig_str_seq_eq(plan.command@, cmd)
        &&& kubeclient::is_pod_query_args(
            plan.pod_args@,
            release.context@,
            kubeclient::selector_string(
                kubeclient::retained_labels(selector@, csel@) + csel@,
            ),
        )
    })
}

/// Elementwise view equality of argument lists.
pub open spec fn kubeconfig_str_seq_eq(a: Seq<String>, b: Seq<String>) -> bool {
    crate::kubeconfig::str_seq_eq(a, b)
}

/// Copies an argument list entry by entry.
fn clone_strings(v: &Vec<String>) -> (r: Vec<String>)
    ensures
        r@ == v@,
{
    let mut r: Vec<String> = Vec::new();
    let mut i: usize = 0;
    while i < v.len()
        invariant
            i <= v@.len(),
            r@ == v@.subrange(0, i as int),
        decreases v@.len() - i,
    {
        r.push(v[i].clone());
        proof {
            assert(r@ =~= v@.subrange(0, i + 1));
        }
        i = i + 1;
    }
    proof {
        assert(v@.subrange(0, v@.len() as int) =~= v@);
    }
    r
}

/// Plans a console session running the application's own configured
/// console command.
pub fn run_default(config: &Config, release: &Release) -> (r: Result<ConsolePlan, Error>)
    ensures
        r matches Ok(p) ==> exists|j: int, cmd: Seq<String>|
            #[trigger] config::first_application_match(
                config.applications@,
                release.application@,
                j,
            ) && #[trigger] is_console_plan(p, *config, *release, cmd, j) && (
                config.applications@[j].config matches ApplicationConfig::Kubectl {
                    console,
                    selector,
                } && console matches Some(cons) && cons matches Console::Exec {
                    command: ccmd,
                    container,
                    selector: csel,
                } && cmd == ccmd@),
        r matches Err(e) ==> e is ConfigReference || e is Selection,
{
    let application = match config.find_application(release) {
        Ok(a) => a,
        Err(e) => {
            return Err(e);
        },
    };
    match &application.config {
        ApplicationConfig::Kubectl { console, .. } => match console {
            Some(Console::Exec { command, .. }) => {
                let cmd = clone_strings(command);
                run_command(config, release, &cmd)
            },
            None => {
                let mut reason = String::from_str("No console configured for application: ");
                reason.append(application.name.as_str());
                Err(Error::Selection { reason })
            },
        },
    }
}

/// Plans a console session running an ad-hoc command: resolves the
/// release's application and its console settings, and combines the
/// application and console selectors for the pod query.
#[verifier::rlimit(50)]
pub fn run_command(config: &Config, release: &Release, cmd: &Vec<String>) -> (r: Result<
    ConsolePlan,
    Error,
>)
    ensures
        r matches Ok(p) ==> exists|j: int|
            #[trigger] config::first_application_match(
                config.applications@,
                release.application@,
                j,
            ) && is_console_plan(p, *config, *release, cmd@, j),
        r matches Err(e) ==> e is ConfigReference || e is Selection,
        r is Err ==> (forall|j: int|
            0 <= j < config.applications@.len() ==> #[trigger] config.applications@[j].name@
                != release.application@) || (exists|j: int|
            #[trigger] config::first_application_match(
                config.applications@,
                release.application@,
                j,
            ) && (config.applications@[j].config matches ApplicationConfig::Kubectl {
                console,
                selector,
            } && console is None)),
{
    let application = match config.find_application(release) {
        Ok(a) => a,
        Err(e) => {
            return Err(e);
        },
    };
    match &application.config {
        ApplicationConfig::Kubectl { console, selector } => {
            let base = kubeclient::Selector::new(config::clone_params(selector));
            match console {
                Some(Console::Exec { container, selector: console_selector, .. }) => {
                    let combined = base.extend(
                        &kubeclient::Selector::new(config::clone_params(console_selector)),
                    );
                    let client = kubeclient::new(release.context.as_str());
                    let pod_args = client.get_available_pod_args(combined);
                    let plan = ConsolePlan {
                        context: release.context.clone(),
                        pod_args,
                        container: container.clone(),
                        command: clone_strings(cmd),
                    };
                    proof {
                        let jw = choose|j: int|
                            config::first_application_match(
                                config.applications@,
                                release.application@,
                                j,
                            ) && *application == config.applications@[j];
                        assert(is_console_plan(plan, *config, *release, cmd@, jw));

                    }
                    return Ok(plan);
                },
                None => {
                    let mut reason = String::from_str(
                        "No console configured for application: ",
                    );
                    reason.append(application.name.as_str());
                    Err(Error::Selection { reason })
                },
            }
        },
    }
}

/// The invocation that runs the planned command inside the chosen pod.
pub fn exec_args(plan: &ConsolePlan, pod_name: &str) -> (r: Vec<String>)
    ensures
        kubeclient::is_exec_args(r@, plan.context@, pod_name@, plan.container@, plan.command@),
{
    let client = kubeclient::new(plan.context.as_str());
    client.exec_command(pod_name, plan.container.as_str(), &plan.command)
}

} // verus!
