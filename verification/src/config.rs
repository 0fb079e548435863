use vstd::prelude::*;

use crate::errors::Error;

verus! {

/// A declared cloud identity: a named credential configuration bound to an
/// operator's session.
#[derive(Debug)]
pub struct Auth {
    pub name: String,
    pub config: AuthConfig,
}

/// Provider-specific identity settings, keyed by a provider tag.
#[derive(Debug)]
pub enum AuthConfig {
    /// A cloud SSO profile, configured by ordered key/value settings.
    AwsSso { config: Vec<(String, String)> },
}

/// A declared cluster registration. Live connection details (endpoint and
/// certificate authority) are not stored here; they are fetched from the
/// cloud provider at reconciliation time.
#[derive(Debug)]
pub struct Cluster {
    pub name: String,
    pub auth: String,
    pub config: ClusterConfig,
}

/// Provider-specific cluster settings.
#[derive(Debug)]
pub enum ClusterConfig {
    /// A managed cluster, looked up by name within a region.
    Eks { name: String, region: String },
}

/// A declared application workload.
#[derive(Debug)]
pub struct Application {
    pub manifests: ApplicationManifests,
    pub name: String,
    pub config: ApplicationConfig,
}

/// Provider-specific application settings.
#[derive(Debug)]
pub enum ApplicationConfig {
    Kubectl { console: Option<Console>, selector: Vec<(String, String)> },
}

/// How an interactive console is run for an application.
#[derive(Debug)]
pub enum Console {
    Exec { command: Vec<String>, container: String, selector: Vec<(String, String)> },
}

/// Where an application's manifests live.
#[derive(Debug)]
pub struct ApplicationManifests {
    pub provider: ManifestsProvider,
    pub repo: String,
}

#[derive(Debug)]
pub enum ManifestsProvider {
    Kustomize,
}

/// A deployed release of an application, consumed here only to find which
/// context binding to reconcile.
#[derive(Debug)]
pub struct Release {
    pub application: String,
    pub context: String,
    pub environment: String,
    pub manifests: ManifestConfig,
    pub name: String,
}

#[derive(Debug)]
pub enum ManifestConfig {
    Kustomize { path: String },
}

/// A declared context binding: references an identity and a cluster by
/// name, which must resolve within the same [`Config`].
#[derive(Debug)]
pub struct Context {
    pub auth: String,
    pub cluster: String,
    pub name: String,
    pub namespace: String,
}

/// The declarative desired state: loaded once per invocation and immutable
/// thereafter.
#[derive(Debug)]
pub struct Config {
    pub api_version: String,
    pub applications: Vec<Application>,
    pub auth: Vec<Auth>,
    pub clusters: Vec<Cluster>,
    pub contexts: Vec<Context>,
    pub kind: String,
    pub releases: Vec<Release>,
}

/// A loaded configuration together with the path it was found at.
#[derive(Debug)]
pub struct ConfigFile {
    pub config: Config,
    pub path: String,
}

/// `i` is the position of the first declared identity named `name`.
pub open spec fn first_auth_match(s: Seq<Auth>, name: Seq<char>, i: int) -> bool {
    &&& 0 <= i < s.len()
    &&& s[i].name@ == name
    &&& forall|j: int| 0 <= j < i ==> (#[trigger] s[j]).name@ != name
}

/// `i` is the position of the first declared cluster named `name`.
pub open spec fn first_cluster_match(s: Seq<Cluster>, name: Seq<char>, i: int) -> bool {
    &&& 0 <= i < s.len()
    &&& s[i].name@ == name
    &&& forall|j: int| 0 <= j < i ==> (#[trigger] s[j]).name@ != name
}

/// `i` is the position of the first declared context named `name`.
pub open spec fn first_context_match(s: Seq<Context>, name: Seq<char>, i: int) -> bool {
    &&& 0 <= i < s.len()
    &&& s[i].name@ == name
    &&& forall|j: int| 0 <= j < i ==> (#[trigger] s[j]).name@ != name
}

/// `i` is the position of the first declared application named `name`.
pub open spec fn first_application_match(s: Seq<Application>, name: Seq<char>, i: int) -> bool {
    &&& 0 <= i < s.len()
    &&& s[i].name@ == name
    &&& forall|j: int| 0 <= j < i ==> (#[trigger] s[j]).name@ != name
}

impl Config {
    /// Resolves the identity referenced by a context binding: the first
    /// declared identity with the referenced name, or a
    /// [`Error::ConfigReference`] naming the context and the missing
    /// identity.
    pub fn find_auth(&self, context: &Context) -> (r: Result<&Auth, Error>)
        ensures
            r matches Ok(a) ==> exists|i: int|
                first_auth_match(self.auth@, context.auth@, i) && *a == self.auth@[i],
            r is Err ==> forall|i: int|
                0 <= i < self.auth@.len() ==> #[trigger] self.auth@[i].name@ != context.auth@,
            r matches Err(e) ==> (e matches Error::ConfigReference { kind, holder, missing }
                && kind@ == "auth"@ && holder@ == context.name@ && missing@ == context.auth@),
    {
        let mut i: usize = 0;
        while i < self.auth.len()
            invariant
                i <= self.auth@.len(),
                forall|j: int| 0 <= j < i ==> #[trigger] self.auth@[j].name@ != context.auth@,
            decreases self.auth@.len() - i,
        {
            if self.auth[i].name == context.auth {
                return Ok(&self.auth[i]);
            }
            i = i + 1;
        }
        Err(
            Error::ConfigReference {
                kind: String::from_str("auth"),
                holder: context.name.clone(),
                missing: context.auth.clone(),
            },
        )
    }

    /// Resolves the cluster referenced by a context binding: the first
    /// declared cluster with the referenced name, or a
    /// [`Error::ConfigReference`] naming the context and the missing
    /// cluster.
    pub fn find_cluster(&self, context: &Context) -> (r: Result<&Cluster, Error>)
        ensures
            r matches Ok(c) ==> exists|i: int|
                first_cluster_match(self.clusters@, context.cluster@, i) && *c
                    == self.clusters@[i],
            r is Err ==> forall|i: int|
                0 <= i < self.clusters@.len() ==> #[trigger] self.clusters@[i].name@
                    != context.cluster@,
            r matches Err(e) ==> (e matches Error::ConfigReference { kind, holder, missing }
                && kind@ == "cluster"@ && holder@ == context.name@ && missing@
                == context.cluster@),
    {
        let mut i: usize = 0;
        while i < self.clusters.len()
            invariant
                i <= self.clusters@.len(),
                forall|j: int| 0 <= j < i ==> #[trigger] self.clusters@[j].name@
                    != context.cluster@,
            decreases self.clusters@.len() - i,
        {
            if self.clusters[i].name == context.cluster {
                return Ok(&self.clusters[i]);
            }
            i = i + 1;
        }
        Err(
            Error::ConfigReference {
                kind: String::from_str("cluster"),
                holder: context.name.clone(),
                missing: context.cluster.clone(),
            },
        )
    }

    /// Resolves the context binding referenced by a release: the first
    /// declared context with the referenced name, or a
    /// [`Error::ConfigReference`] naming the release and the missing
    /// context.
    pub fn find_context(&self, release: &Release) -> (r: Result<&Context, Error>)
        ensures
            r matches Ok(c) ==> exists|i: int|
                first_context_match(self.contexts@, release.context@, i) && *c
                    == self.contexts@[i],
            r is Err ==> forall|i: int|
                0 <= i < self.contexts@.len() ==> #[trigger] self.contexts@[i].name@
                    != release.context@,
            r matches Err(e) ==> (e matches Error::ConfigReference { kind, holder, missing }
                && kind@ == "context"@ && holder@ == release.name@ && missing@
                == release.context@),
    {
        let mut i: usize = 0;
        while i < self.contexts.len()
            invariant
                i <= self.contexts@.len(),
                forall|j: int| 0 <= j < i ==> #[trigger] self.contexts@[j].name@
                    != release.context@,
            decreases self.contexts@.len() - i,
        {
            if self.contexts[i].name == release.context {
                return Ok(&self.contexts[i]);
            }
            i = i + 1;
        }
        Err(
            Error::ConfigReference {
                kind: String::from_str("context"),
                holder: release.name.clone(),
                missing: release.context.clone(),
            },
        )
    }

    /// Resolves the application referenced by a release: the first
    /// declared application with the referenced name, or a
    /// [`Error::ConfigReference`] naming the release and the missing
    /// application.
    pub fn find_application(&self, release: &Release) -> (r: Result<&Application, Error>)
        ensures
            r matches Ok(a) ==> exists|i: int|
                first_application_match(self.applications@, release.application@, i) && *a
                    == self.applications@[i],
            r is Err ==> forall|i: int|
                0 <= i < self.applications@.len() ==> #[trigger] self.applications@[i].name@
                    != release.application@,
            r matches Err(e) ==> (e matches Error::ConfigReference { kind, holder, missing }
                && kind@ == "application"@ && holder@ == release.name@ && missing@
                == release.application@),
    {
        let mut i: usize = 0;
        while i < self.applications.len()
            invariant
                i <= self.applications@.len(),
                forall|j: int| 0 <= j < i ==> #[trigger] self.applications@[j].name@
                    != release.application@,
            decreases self.applications@.len() - i,
        {
            if self.applications[i].name == release.application {
                return Ok(&self.applications[i]);
            }
            i = i + 1;
        }
        Err(
            Error::ConfigReference {
                kind: String::from_str("application"),
                holder: release.name.clone(),
                missing: release.application.clone(),
            },
        )
    }
}

/// Copies a parameter list entry by entry.
pub fn clone_params(v: &Vec<(String, String)>) -> (r: Vec<(String, String)>)
    ensures
        r@ == v@,
{
    let mut r: Vec<(String, String)> = Vec::new();
    let mut i: usize = 0;
    while i < v.len()
        invariant
            i <= v@.len(),
            r@ == v@.subrange(0, i as int),
        decreases v@.len() - i,
    {
        let (k, val) = &v[i];
        r.push((k.clone(), val.clone()));
        proof {
            assert(r@ =~= v@.subrange(0, i + 1));
        }
        i = i + 1;
    }
    proof {
        assert(v@.subrange(0, v@.len() as int) =~= v@);
    }
    r
}

} // verus!
