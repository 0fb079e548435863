use vstd::prelude::*;

use crate::config::{AuthConfig, Config, Release};
use crate::config;
use crate::errors::Error;

verus! {

/// Builds the delegated cloud CLI invocation for an ad-hoc command:
/// resolves the release's identity and pins the command to its profile.
pub fn run(config: &Config, release: &Release, cmd: &Vec<String>) -> (r: Result<Vec<String>, Error>)
    ensures
        r matches Ok(a) ==> exists|i: int, j: int|
            {
                &&& #[trigger] config::first_context_match(
                    config.contexts@,
                    release.context@,
                    i,
                )
                &&& #[trigger] config::first_auth_match(
                    config.auth@,
                    config.contexts@[i].auth@,
                    j,
                )
                &&& a@.len() == 2 + cmd@.len()
                &&& a@[0]@ == "--profile"@
                &&& a@[1]@ == config.auth@[j].name@
                &&& forall|k: int| 0 <= k < cmd@.len() ==> (#[trigger] a@[2 + k]@) == cmd@[k]@
            },
        r matches Err(e) ==> e is ConfigReference,
{
    let context = match config.find_context(release) {
        Ok(c) => c,
        Err(e) => {
            return Err(e);
        },
    };
    let auth = match config.find_auth(context) {
        Ok(a) => a,
        Err(e) => {
            return Err(e);
        },
    };
    match &auth.config {
        AuthConfig::AwsSso { .. } => {
            let mut r: Vec<String> = Vec::new();
            r.push(String::from_str("--profile"));
            r.push(auth.name.clone());
            let mut i: usize = 0;
            while i < cmd.len()
                invariant
                    i <= cmd@.len(),
                    r@.len() == 2 + i,
                    r@[0]@ == "--profile"@,
                    r@[1]@ == auth.name@,
                    forall|j: int| 0 <= j < i ==> (#[trigger] r@[2 + j]@) == cmd@[j]@,
                decreases cmd@.len() - i,
            {
                r.push(cmd[i].clone());
                i = i + 1;
            }
            Ok(r)
        },
    }
}

} // verus!
