use vstd::prelude::*;

use crate::config::{Application, Config, Release};
use crate::config;
use crate::errors::Error;

verus! {

/// Narrows which application and release a command targets. Both parts
/// are optional; an unambiguous configuration needs neither.
#[derive(Debug)]
pub struct Selector {
    pub application: Option<String>,
    pub environment: Option<String>,
}

/// `j` names the application the selector picks: the first declared
/// application under the selected name, or the only declared application
/// when no name was given.
pub open spec fn app_choice(sel: Selector, c: Config, j: int) -> bool {
    match sel.application {
        Some(name) => config::first_application_match(c.applications@, name@, j),
        None => c.applications@.len() == 1 && j == 0,
    }
}

/// `i` is the position of the first release for environment `env` of the
/// application named `app`.
pub open spec fn first_release_match(s: Seq<Release>, env: Seq<char>, app: Seq<char>, i: int) -> bool {
    &&& 0 <= i < s.len()
    &&& s[i].environment@ == env
    &&& s[i].application@ == app
    &&& forall|j: int|
        0 <= j < i ==> !((#[trigger] s[j]).environment@ == env && s[j].application@ == app)
}

impl Selector {
    /// Combines two selectors; where both give a part, the other
    /// selector wins.
    pub fn merge(&self, other: &Selector) -> (r: Selector)
        ensures
            other.application matches Some(a) ==> (r.application matches Some(x) && x@ == a@),
            other.application is None ==> (self.application matches Some(a) ==> (
            r.application matches Some(x) && x@ == a@)),
            other.application is None && self.application is None ==> r.application is None,
            other.environment matches Some(e) ==> (r.environment matches Some(x) && x@ == e@),
            other.environment is None ==> (self.environment matches Some(e) ==> (
            r.environment matches Some(x) && x@ == e@)),
            other.environment is None && self.environment is None ==> r.environment is None,
    {
        let application = match &other.application {
            Some(a) => Some(a.clone()),
            None => match &self.application {
                Some(a) => Some(a.clone()),
                None => None,
            },
        };
        let environment = match &other.environment {
            Some(e) => Some(e.clone()),
            None => match &self.environment {
                Some(e) => Some(e.clone()),
                None => None,
            },
        };
        Selector { application, environment }
    }

    /// Picks the release the selector targets: the first release of the
    /// selected application in the selected environment, or the only
    /// declared release when no environment was given.
    pub fn apply(self, config: &Config) -> (r: Result<&Release, Error>)
        ensures
            r matches Ok(rel) ==> exists|j: int|
                #[trigger] app_choice(self, *config, j) && (match self.environment {
                    Some(env) => exists|i: int|
                        first_release_match(
                            config.releases@,
                            env@,
                            config.applications@[j].name@,
                            i,
                        ) && *rel == config.releases@[i],
                    None => config.releases@.len() == 1 && *rel == config.releases@[0],
                }),
            r matches Err(e) ==> e is Selection,
            r is Err ==> {
                ||| (self.application matches Some(n) && (forall|j: int|
                    0 <= j < config.applications@.len()
                        ==> #[trigger] config.applications@[j].name@ != n@))
                ||| (self.application is None && config.applications@.len() != 1)
                ||| (exists|j: int|
                    #[trigger] app_choice(self, *config, j) && (self.environment matches Some(env)
                        && (forall|i: int|
                        0 <= i < config.releases@.len() ==> !((
                        #[trigger] config.releases@[i]).environment@ == env@
                            && config.releases@[i].application@
                            == config.applications@[j].name@))))
                ||| (exists|j: int|
                    #[trigger] app_choice(self, *config, j) && self.environment is None
                        && config.releases@.len() != 1)
            },
    {
        let application = match self.application(config) {
            Ok(a) => a,
            Err(e) => {
                return Err(e);
            },
        };
        match &self.environment {
            Some(name) => {
                let mut i: usize = 0;
                while i < config.releases.len()
                    invariant
                        self.environment == Some(*name),
                        exists|j: int|
                            #[trigger] app_choice(self, *config, j) && *application
                                == config.applications@[j],
                        i <= config.releases@.len(),
                        forall|k: int|
                            0 <= k < i ==> !((#[trigger] config.releases@[k]).environment@
                                == name@ && config.releases@[k].application@
                                == application.name@),
                    decreases config.releases@.len() - i,
                {
                    if config.releases[i].environment == *name && config.releases[i].application
                        == application.name {
                        proof {
                            let jw = choose|j: int|
                                app_choice(self, *config, j) && *application
                                    == config.applications@[j];
                            assert(app_choice(self, *config, jw));
                            assert(first_release_match(
                                config.releases@,
                                name@,
                                config.applications@[jw].name@,
                                i as int,
                            ));
                        }
                        return Ok(&config.releases[i]);
                    }
                    i = i + 1;
                }
                proof {
                    let jw = choose|j: int|
                        app_choice(self, *config, j) && *application == config.applications@[j];
                    assert(app_choice(self, *config, jw));
                }
                Err(
                    Error::Selection {
                        reason: String::from_str(
                            "No release found for that application and environment",
                        ),
                    },
                )
            },
            None => {
                proof {
                    let jw = choose|j: int|
                        app_choice(self, *config, j) && *application == config.applications@[j];
                    assert(app_choice(self, *config, jw));
                }
                if config.releases.len() == 1 {
                    Ok(&config.releases[0])
                } else {
                    let mut reason = String::from_str("More than one release for application ");
                    reason.append(application.name.as_str());
                    Err(Error::Selection { reason })
                }
            },
        }
    }

    /// Picks the application the selector targets, as [`app_choice`]
    /// describes.
    fn application<'a>(&self, config: &'a Config) -> (r: Result<&'a Application, Error>)
        ensures
            r matches Ok(a) ==> exists|j: int|
                #[trigger] app_choice(*self, *config, j) && *a == config.applications@[j],
            r matches Err(e) ==> e is Selection,
            r is Err ==> {
                ||| (self.application matches Some(n) && (forall|j: int|
                    0 <= j < config.applications@.len()
                        ==> #[trigger] config.applications@[j].name@ != n@))
                ||| (self.application is None && config.applications@.len() != 1)
            },
    {
        match &self.application {
            Some(name) => {
                let mut j: usize = 0;
                while j < config.applications.len()
                    invariant
                        self.application == Some(*name),
                        j <= config.applications@.len(),
                        forall|k: int|
                            0 <= k < j ==> #[trigger] config.applications@[k].name@ != name@,
                    decreases config.applications@.len() - j,
                {
                    if config.applications[j].name == *name {
                        proof {
                            assert(app_choice(*self, *config, j as int));
                        }
                        return Ok(&config.applications[j]);
                    }
                    j = j + 1;
                }
                Err(
                    Error::Selection {
                        reason: String::from_str("No application found by that name"),
                    },
                )
            },
            None => {
                if config.applications.len() == 0 {
                    Err(
                        Error::Selection {
                            reason: String::from_str("No applications found in config"),
                        },
                    )
                } else if config.applications.len() == 1 {
                    proof {
                        assert(app_choice(*self, *config, 0));
                    }
                    Ok(&config.applications[0])
                } else {
                    Err(Error::Selection { reason: String::from_str("More than one application") })
                }
            },
        }
    }
}

} // verus!
