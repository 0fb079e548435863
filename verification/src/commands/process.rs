use vstd::prelude::*;

use crate::config::{ApplicationConfig, Config, Release};
use crate::config;
use crate::errors::Error;
use crate::kubeclient;

verus! {

/// Builds the delegated invocation that lists the workloads running for
/// a release: the application's own label selector, under the release's
/// context.
pub fn run(config: &Config, release: &Release) -> (r: Result<Vec<String>, Error>)
    ensures
        r matches Ok(a) ==> exists|j: int|
            {
                &&& #[trigger] config::first_application_match(
                    config.applications@,
                    release.application@,
                    j,
                )
                &&& a@.len() == 6
                &&& a@[0]@ == "--context"@
                &&& a@[1]@ == release.context@
                &&& a@[2]@ == "get"@
                &&& a@[3]@ == "deploy"@
                &&& a@[4]@ == "--selector"@
                &&& (config.applications@[j].config matches ApplicationConfig::Kubectl {
                    console,
                    selector,
                } && a@[5]@ == kubeclient::selector_string(selector@))
            },
        r matches Err(e) ==> e is ConfigReference,
        r is Err ==> forall|j: int|
            0 <= j < config.applications@.len() ==> #[trigger] config.applications@[j].name@
                != release.application@,
{
    let application = match config.find_application(release) {
        Ok(a) => a,
        Err(e) => {
            return Err(e);
        },
    };
    match &application.config {
        ApplicationConfig::Kubectl { selector, .. } => {
            let client = kubeclient::new(release.context.as_str());
            let labels = kubeclient::Selector::new(config::clone_params(selector));
            Ok(client.get_workloads(labels))
        },
    }
}

} // verus!
