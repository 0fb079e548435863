use vstd::prelude::*;

use crate::config::{Config, Release};
use crate::config;
use crate::errors::Error;
use crate::kubeclient;

verus! {

/// Builds the delegated cluster-client invocation for an ad-hoc command:
/// validates that the release's application is declared and pins the
/// command to the release's context.
pub fn run(config: &Config, release: &Release, cmd: &Vec<String>) -> (r: Result<Vec<String>, Error>)
    ensures
        r matches Ok(a) ==> (exists|j: int| #[trigger] config::first_application_match(
            config.applications@,
            release.application@,
            j,
        )) && a@.len() == 2 + cmd@.len() && a@[0]@ == "--context"@ && a@[1]@ == release.context@
            && (forall|k: int| 0 <= k < cmd@.len() ==> (#[trigger] a@[2 + k]@) == cmd@[k]@),
        r matches Err(e) ==> e is ConfigReference,
        r is Err ==> forall|j: int|
            0 <= j < config.applications@.len() ==> #[trigger] config.applications@[j].name@
                != release.application@,
{
    match config.find_application(release) {
        Ok(_) => (),
        Err(e) => {
            return Err(e);
        },
    };
    let client = kubeclient::new(release.context.as_str());
    Ok(client.run_command(cmd))
}

} // verus!
