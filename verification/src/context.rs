use vstd::prelude::*;

use crate::aws;
use crate::config::{Auth, Cluster, ClusterConfig, Config, Context, Release};
use crate::config;
use crate::errors::Error;
use crate::kubeconfig::{
    ClusterEntry,
    ContextEntry,
    EnvEntry,
    ExecConfig,
    IdentityEntry,
    LocalState,
};
use crate::kubeconfig;
use crate::kubeconfig_writer;

verus! {

/// The exec credential descriptor expected for a cloud-SSO identity
/// paired with a managed cluster: it requests a bearer token for the
/// cluster's name and region, pinned to the identity's profile through
/// the process environment, and is carried under the context binding's
/// name.
pub open spec fn is_expected_identity(
    e: IdentityEntry,
    context: Context,
    auth: Auth,
    eks_name: Seq<char>,
    region: Seq<char>,
) -> bool {
    &&& e.name@ == context.name@
    &&& e.exec_config.api_version@ == "client.authentication.k8s.io/v1alpha1"@
    &&& e.exec_config.command@ == "aws"@
    &&& e.exec_config.args@.len() == 6
    &&& e.exec_config.args@[0]@ == "--region"@
    &&& e.exec_config.args@[1]@ == region
    &&& e.exec_config.args@[2]@ == "eks"@
    &&& e.exec_config.args@[3]@ == "get-token"@
    &&& e.exec_config.args@[4]@ == "--cluster-name"@
    &&& e.exec_config.args@[5]@ == eks_name
    &&& e.exec_config.env@.len() == 1
    &&& e.exec_config.env@[0].name@ == "AWS_PROFILE"@
    &&& e.exec_config.env@[0].value@ == auth.name@
}

/// Builds the identity entry that the local store must hold for a
/// context binding: the exec credential descriptor described by
/// [`is_expected_identity`].
pub fn build_auth(context: &Context, auth: &Auth, cluster: &Cluster) -> (r: IdentityEntry)
    ensures
        cluster.config matches ClusterConfig::Eks { name, region } ==> is_expected_identity(
            r,
            *context,
            *auth,
            name@,
            region@,
        ),
{
    match &cluster.config {
        ClusterConfig::Eks { name, region } => {
            let mut args: Vec<String> = Vec::new();
            args.push(String::from_str("--region"));
            args.push(region.clone());
            args.push(String::from_str("eks"));
            args.push(String::from_str("get-token"));
            args.push(String::from_str("--cluster-name"));
            args.push(name.clone());
            let mut env: Vec<EnvEntry> = Vec::new();
            env.push(
                EnvEntry { name: String::from_str("AWS_PROFILE"), value: auth.name.clone() },
            );
            IdentityEntry {
                name: context.name.clone(),
                exec_config: ExecConfig {
                    api_version: String::from_str("client.authentication.k8s.io/v1alpha1"),
                    command: String::from_str("aws"),
                    args,
                    env,
                },
            }
        },
    }
}

/// Builds the cluster registration that the local store must hold, from
/// the live details the cloud control plane reported.
pub fn build_cluster(cluster: &Cluster, eks: &aws::EksCluster) -> (r: ClusterEntry)
    ensures
        r.name@ == cluster.name@,
        r.server@ == eks.endpoint@,
        r.certificate_authority_data@ == eks.cert@,
{
    ClusterEntry {
        name: cluster.name.clone(),
        server: eks.endpoint.clone(),
        certificate_authority_data: eks.cert.clone(),
    }
}

/// What the context reconciliation waits on next. Every non-terminal
/// step names one external action; the driver performs it and feeds the
/// outcome back through [`ContextFlow::step`].
#[derive(Debug)]
pub enum ContextStep {
    /// Pending: read the local access configuration (an absent file is a
    /// valid empty state, not an error).
    ReadLocal,
    /// Pending: the managed-cluster lookup for the live endpoint and
    /// certificate-authority data.
    Describe,
    /// Pending: decode the registration's certificate-authority data and
    /// stage the raw bytes into a fresh temp certificate file.
    StageCert { cluster: ClusterEntry },
    /// Pending: the cluster write, embedding the certificate staged at
    /// `ca_path`.
    WriteCluster { cluster: ClusterEntry, ca_path: String },
    /// Pending: delete the temp certificate file after a successful
    /// cluster write; a failure of the deletion itself is fatal.
    CleanupAfterOk,
    /// Pending: delete the temp certificate file after a failed cluster
    /// write; the original write error survives the cleanup, whatever
    /// the deletion reports.
    CleanupAfterErr { diag: String },
    /// Pending: the identity write.
    WriteIdentity,
    /// Pending: the context write.
    WriteContext,
    /// The local store matches the desired state.
    Done,
    /// The flow aborted; the error propagates to the caller.
    Failed { error: Error },
}

/// The outcome of the external action a [`ContextFlow`] was waiting on.
#[derive(Debug)]
pub enum ContextEvent {
    /// The local state was read.
    LocalRead { state: LocalState },
    /// The local state was unreadable for a reason other than an absent
    /// file.
    ReadErr { diag: String },
    /// The managed-cluster lookup succeeded.
    DescribeOk { endpoint: String, cert: String },
    /// The certificate bytes were staged into a temp file at `path`.
    StagedOk { path: String },
    /// A delegated call succeeded.
    ToolOk,
    /// A delegated call exited non-zero, with captured diagnostics.
    ToolErr { diag: String },
}

/// The context reconciler: converges the local store toward one context
/// binding's desired state. The identity and cluster entries are
/// reconciled before the context entry is ever written.
#[derive(Debug)]
pub struct ContextFlow {
    /// The identity entry the local store must hold.
    pub expected_identity: IdentityEntry,
    /// The context entry the local store must hold.
    pub expected_context: ContextEntry,
    /// The name under which the cluster is registered locally.
    pub cluster_name: String,
    /// The profile the managed-cluster lookup runs under.
    pub eks_profile: String,
    /// The region of the managed cluster.
    pub eks_region: String,
    /// The managed cluster's name at the cloud provider.
    pub eks_name: String,
    /// The local state read at the start of the run; queried fresh for
    /// every run, never cached across runs.
    pub local: Option<LocalState>,
    /// What the flow waits on next.
    pub step: ContextStep,
}

/// The transition relation of the context reconciliation: check the
/// identity entry against the freshly read local state; when it drifted,
/// look up the live cluster details, write the cluster registration if
/// that also drifted, stage and clean up the temp certificate file
/// around the cluster write, rewrite the identity, and only then check
/// and write the context binding. Terminal steps absorb every event, as
/// does an event that does not answer the pending action.
pub open spec fn ctx_next(f: ContextFlow, ev: ContextEvent) -> ContextFlow {
    let (step, local) = match (f.step, ev) {
        (ContextStep::ReadLocal, ContextEvent::LocalRead { state }) => {
            let s = if kubeconfig::identity_in(state, f.expected_identity) {
                if kubeconfig::context_in(state, f.expected_context) {
                    ContextStep::Done
                } else {
                    ContextStep::WriteContext
                }
            } else {
                ContextStep::Describe
            };
            (s, Some(state))
        },
        (ContextStep::ReadLocal, ContextEvent::ReadErr { diag }) => {
            (ContextStep::Failed { error: Error::StateRead { diag } }, f.local)
        },
        (ContextStep::Describe, ContextEvent::DescribeOk { endpoint, cert }) => {
            let c = ClusterEntry {
                name: f.cluster_name,
                server: endpoint,
                certificate_authority_data: cert,
            };
            let s = match f.local {
                Some(ls) => if kubeconfig::cluster_in(ls, c) {
                    ContextStep::WriteIdentity
                } else {
                    ContextStep::StageCert { cluster: c }
                },
                None => ContextStep::StageCert { cluster: c },
            };
            (s, f.local)
        },
        (ContextStep::Describe, ContextEvent::ToolErr { diag }) => {
            (ContextStep::Failed { error: Error::ExternalTool { diag } }, f.local)
        },
        (ContextStep::StageCert { cluster }, ContextEvent::StagedOk { path }) => {
            (ContextStep::WriteCluster { cluster, ca_path: path }, f.local)
        },
        (ContextStep::StageCert { cluster }, ContextEvent::ToolErr { diag }) => {
            (ContextStep::Failed { error: Error::ExternalTool { diag } }, f.local)
        },
        (ContextStep::WriteCluster { cluster, ca_path }, ContextEvent::ToolOk) => {
            (ContextStep::CleanupAfterOk, f.local)
        },
        (ContextStep::WriteCluster { cluster, ca_path }, ContextEvent::ToolErr { diag }) => {
            (ContextStep::CleanupAfterErr { diag }, f.local)
        },
        (ContextStep::CleanupAfterOk, ContextEvent::ToolOk) => {
            (ContextStep::WriteIdentity, f.local)
        },
        (ContextStep::CleanupAfterOk, ContextEvent::ToolErr { diag }) => {
            (ContextStep::Failed { error: Error::ExternalTool { diag } }, f.local)
        },
        (ContextStep::CleanupAfterErr { diag }, ContextEvent::ToolOk) => {
            (ContextStep::Failed { error: Error::ExternalTool { diag } }, f.local)
        },
        (ContextStep::CleanupAfterErr { diag }, ContextEvent::ToolErr { diag: other }) => {
            (ContextStep::Failed { error: Error::ExternalTool { diag } }, f.local)
        },
        (ContextStep::WriteIdentity, ContextEvent::ToolOk) => {
            let s = match f.local {
                Some(ls) => if kubeconfig::context_in(ls, f.expected_context) {
                    ContextStep::Done
                } else {
                    ContextStep::WriteContext
                },
                None => ContextStep::WriteContext,
            };
            (s, f.local)
        },
        (ContextStep::WriteIdentity, ContextEvent::ToolErr { diag }) => {
            (ContextStep::Failed { error: Error::ExternalTool { diag } }, f.local)
        },
        (ContextStep::WriteContext, ContextEvent::ToolOk) => (ContextStep::Done, f.local),
        (ContextStep::WriteContext, ContextEvent::ToolErr { diag }) => {
            (ContextStep::Failed { error: Error::ExternalTool { diag } }, f.local)
        },
        (s, _) => (s, f.local),
    };
    ContextFlow {
        expected_identity: f.expected_identity,
        expected_context: f.expected_context,
        cluster_name: f.cluster_name,
        eks_profile: f.eks_profile,
        eks_region: f.eks_region,
        eks_name: f.eks_name,
        local,
        step,
    }
}

/// Prepares the context reconciliation for a release: resolves its
/// context binding, identity and cluster, builds the expected identity
/// descriptor and context entry, and starts the flow at the local-state
/// read. A dangling reference is fatal before any external action.
pub fn prepare(config: &Config, release: &Release) -> (r: Result<ContextFlow, Error>)
    ensures
        r matches Ok(f) ==> f.step is ReadLocal && f.local is None && exists|i: int, j: int, k: int|
            {
                &&& #[trigger] config::first_context_match(
                    config.contexts@,
                    release.context@,
                    i,
                )
                &&& #[trigger] config::first_auth_match(
                    config.auth@,
                    config.contexts@[i].auth@,
                    j,
                )
                &&& #[trigger] config::first_cluster_match(
                    config.clusters@,
                    config.contexts@[i].cluster@,
                    k,
                )
                &&& (config.clusters@[k].config matches ClusterConfig::Eks { name, region } ==> {
                    &&& is_expected_identity(
                        f.expected_identity,
                        config.contexts@[i],
                        config.auth@[j],
                        name@,
                        region@,
                    )
                    &&& f.eks_region@ == region@
                    &&& f.eks_name@ == name@
                })
                &&& f.eks_profile@ == config.auth@[j].name@
                &&& f.cluster_name@ == config.clusters@[k].name@
                &&& kubeconfig::context_entry_eq(
                    f.expected_context,
                    kubeconfig::desired_context_entry(config.contexts@[i]),
                )
            },
        r matches Err(e) ==> e is ConfigReference,
        r matches Err(e) ==> {
            ||| (forall|i: int|
                0 <= i < config.contexts@.len() ==> #[trigger] config.contexts@[i].name@
                    != release.context@) && (e matches Error::ConfigReference {
                kind,
                holder,
                missing,
            } && kind@ == "context"@ && holder@ == release.name@ && missing@ == release.context@)
            ||| exists|i: int|
                {
                    &&& #[trigger] config::first_context_match(
                        config.contexts@,
                        release.context@,
                        i,
                    )
                    &&& (forall|j: int|
                        0 <= j < config.auth@.len() ==> #[trigger] config.auth@[j].name@
                            != config.contexts@[i].auth@)
                    &&& (e matches Error::ConfigReference { kind, holder, missing } && kind@
                        == "auth"@ && holder@ == config.contexts@[i].name@ && missing@
                        == config.contexts@[i].auth@)
                }
            ||| exists|i: int|
                {
                    &&& #[trigger] config::first_context_match(
                        config.contexts@,
                        release.context@,
                        i,
                    )
                    &&& (exists|j: int| #[trigger] config::first_auth_match(
                        config.auth@,
                        config.contexts@[i].auth@,
                        j,
                    ))
                    &&& (forall|k: int|
                        0 <= k < config.clusters@.len() ==> #[trigger] config.clusters@[k].name@
                            != config.contexts@[i].cluster@)
                    &&& (e matches Error::ConfigReference { kind, holder, missing } && kind@
                        == "cluster"@ && holder@ == config.contexts@[i].name@ && missing@
                        == config.contexts@[i].cluster@)
                }
        },
{
    let context = match config.find_context(release) {
        Ok(c) => c,
        Err(e) => {
            return Err(e);
        },
    };
    let auth = match config.find_auth(context) {
        Ok(a) => a,
        Err(e) => {
            return Err(e);
        },
    };
    let cluster = match config.find_cluster(context) {
        Ok(c) => c,
        Err(e) => {
            return Err(e);
        },
    };
    let expected_identity = build_auth(context, auth, cluster);
    let expected_context = ContextEntry {
        name: context.name.clone(),
        cluster: context.cluster.clone(),
        user: context.name.clone(),
        namespace: context.namespace.clone(),
    };
    let (eks_name, eks_region) = match &cluster.config {
        ClusterConfig::Eks { name, region } => (name.clone(), region.clone()),
    };
    Ok(
        ContextFlow {
            expected_identity,
            expected_context,
            cluster_name: cluster.name.clone(),
            eks_profile: auth.name.clone(),
            eks_region,
            eks_name,
            local: None,
            step: ContextStep::ReadLocal,
        },
    )
}

impl ContextFlow {
    /// The delegated invocation that the flow waits on, or `None` at a
    /// step whose pending action is not a delegated command (reading the
    /// local state, staging or deleting the temp certificate file) or at
    /// a terminal step.
    pub fn command(&self) -> (r: Option<Vec<String>>)
        ensures
            self.step is Describe ==> (r matches Some(a) && aws::is_describe_args(
                a@,
                self.eks_profile@,
                self.eks_region@,
                self.eks_name@,
            )),
            self.step matches ContextStep::WriteCluster { cluster, ca_path } ==> (
            r matches Some(a) && kubeconfig_writer::is_write_cluster_args(a@, cluster, ca_path@)),
            self.step is WriteIdentity ==> (r matches Some(a)
                && kubeconfig_writer::is_write_auth_args(a@, self.expected_identity)),
            self.step is WriteContext ==> (r matches Some(a)
                && kubeconfig_writer::is_write_context_args(a@, self.expected_context)),
            (self.step is ReadLocal || self.step is StageCert || self.step is CleanupAfterOk
                || self.step is CleanupAfterErr || self.step is Done || self.step is Failed)
                ==> r is None,
    {
        match &self.step {
            ContextStep::Describe => Some(
                aws::get_eks_cluster_args(
                    self.eks_profile.as_str(),
                    self.eks_region.as_str(),
                    self.eks_name.as_str(),
                ),
            ),
            ContextStep::WriteCluster { cluster, ca_path } => Some(
                kubeconfig_writer::write_cluster(cluster, ca_path.as_str()),
            ),
            ContextStep::WriteIdentity => Some(kubeconfig_writer::write_auth(
                &self.expected_identity,
            )),
            ContextStep::WriteContext => Some(
                kubeconfig_writer::write_context(
                    self.expected_context.name.as_str(),
                    self.expected_context.user.as_str(),
                    self.expected_context.cluster.as_str(),
                    self.expected_context.namespace.as_str(),
                ),
            ),
            _ => None,
        }
    }

    /// Advances the flow on the outcome of the pending external action,
    /// exactly as [`ctx_next`] describes.
    pub fn step(self, ev: ContextEvent) -> (r: ContextFlow)
        ensures
            r == ctx_next(self, ev),
    {
        let ContextFlow {
            expected_identity,
            expected_context,
            cluster_name,
            eks_profile,
            eks_region,
            eks_name,
            local,
            step,
        } = self;
        let (step, local) = match (step, ev) {
            (ContextStep::ReadLocal, ContextEvent::LocalRead { state }) => {
                let s = if kubeconfig::identity_exists(&state, &expected_identity) {
                    if kubeconfig::context_registered(&state, &expected_context) {
                        ContextStep::Done
                    } else {
                        ContextStep::WriteContext
                    }
                } else {
                    ContextStep::Describe
                };
                (s, Some(state))
            },
            (ContextStep::ReadLocal, ContextEvent::ReadErr { diag }) => {
                (ContextStep::Failed { error: Error::StateRead { diag } }, local)
            },
            (ContextStep::Describe, ContextEvent::DescribeOk { endpoint, cert }) => {
                let c = ClusterEntry {
                    name: cluster_name.clone(),
                    server: endpoint,
                    certificate_authority_data: cert,
                };
                let s = match &local {
                    Some(ls) => if kubeconfig::cluster_registered(ls, &c) {
                        ContextStep::WriteIdentity
                    } else {
                        ContextStep::StageCert { cluster: c }
                    },
                    None => ContextStep::StageCert { cluster: c },
                };
                (s, local)
            },
            (ContextStep::Describe, ContextEvent::ToolErr { diag }) => {
                (ContextStep::Failed { error: Error::ExternalTool { diag } }, local)
            },
            (ContextStep::StageCert { cluster }, ContextEvent::StagedOk { path }) => {
                (ContextStep::WriteCluster { cluster, ca_path: path }, local)
            },
            (ContextStep::StageCert { cluster }, ContextEvent::ToolErr { diag }) => {
                (ContextStep::Failed { error: Error::ExternalTool { diag } }, local)
            },
            (ContextStep::WriteCluster { .. }, ContextEvent::ToolOk) => {
                (ContextStep::CleanupAfterOk, local)
            },
            (ContextStep::WriteCluster { .. }, ContextEvent::ToolErr { diag }) => {
                (ContextStep::CleanupAfterErr { diag }, local)
            },
            (ContextStep::CleanupAfterOk, ContextEvent::ToolOk) => {
                (ContextStep::WriteIdentity, local)
            },
            (ContextStep::CleanupAfterOk, ContextEvent::ToolErr { diag }) => {
                (ContextStep::Failed { error: Error::ExternalTool { diag } }, local)
            },
            (ContextStep::CleanupAfterErr { diag }, ContextEvent::ToolOk) => {
                (ContextStep::Failed { error: Error::ExternalTool { diag } }, local)
            },
            (ContextStep::CleanupAfterErr { diag }, ContextEvent::ToolErr { diag: _other }) => {
                (ContextStep::Failed { error: Error::ExternalTool { diag } }, local)
            },
            (ContextStep::WriteIdentity, ContextEvent::ToolOk) => {
                let s = match &local {
                    Some(ls) => if kubeconfig::context_registered(ls, &expected_context) {
                        ContextStep::Done
                    } else {
                        ContextStep::WriteContext
                    },
                    None => ContextStep::WriteContext,
                };
                (s, local)
            },
            (ContextStep::WriteIdentity, ContextEvent::ToolErr { diag }) => {
                (ContextStep::Failed { error: Error::ExternalTool { diag } }, local)
            },
            (ContextStep::WriteContext, ContextEvent::ToolOk) => (ContextStep::Done, local),
            (ContextStep::WriteContext, ContextEvent::ToolErr { diag }) => {
                (ContextStep::Failed { error: Error::ExternalTool { diag } }, local)
            },
            (s, _) => (s, local),
        };
        ContextFlow {
            expected_identity,
            expected_context,
            cluster_name,
            eks_profile,
            eks_region,
            eks_name,
            local,
            step,
        }
    }
}

/// The flow standing at `s` performs a local-store write when the
/// driver serves it.
pub open spec fn is_write_step(s: ContextStep) -> bool {
    ||| s matches ContextStep::WriteCluster { cluster, ca_path }
    ||| s is WriteIdentity
    ||| s is WriteContext
}

/// The temp certificate file exists while the flow stands at `s`: it is
/// created when the certificate is staged and deleted before the flow
/// moves past the cleanup steps.
pub open spec fn cert_file_live(s: ContextStep) -> bool {
    ||| s matches ContextStep::WriteCluster { cluster, ca_path }
    ||| s is CleanupAfterOk
    ||| s matches ContextStep::CleanupAfterErr { diag }
}

/// The flow after a run under the events `evs`.
pub open spec fn ctx_run(f: ContextFlow, evs: Seq<ContextEvent>) -> ContextFlow
    decreases evs.len(),
{
    if evs.len() == 0 {
        f
    } else {
        ctx_run(ctx_next(f, evs[0]), evs.skip(1))
    }
}

/// Terminal flows absorb every further event.
pub proof fn lemma_terminal_absorbing(f: ContextFlow, ev: ContextEvent)
    requires
        f.step is Done || f.step is Failed,
    ensures
        ctx_next(f, ev) == f,
{
}

/// A terminal flow stays where it is for a whole run: in particular, no
/// write follows a failure.
pub proof fn lemma_terminal_stays(f: ContextFlow, evs: Seq<ContextEvent>)
    requires
        f.step is Done || f.step is Failed,
    ensures
        ctx_run(f, evs) == f,
    decreases evs.len(),
{
    if evs.len() > 0 {
        lemma_terminal_absorbing(f, evs[0]);
        lemma_terminal_stays(f, evs.skip(1));
    }
}

/// Idempotence: when the freshly read local state already holds the
/// expected identity and context entries, the run finishes at once, and
/// no event can ever bring it to a write step afterwards.
pub proof fn lemma_second_run_no_writes(
    f: ContextFlow,
    state: LocalState,
    evs: Seq<ContextEvent>,
)
    requires
        f.step is ReadLocal,
        kubeconfig::identity_in(state, f.expected_identity),
        kubeconfig::context_in(state, f.expected_context),
    ensures
        ctx_next(f, ContextEvent::LocalRead { state }).step is Done,
        forall|n: int|
            0 <= n <= evs.len() ==> !is_write_step(
                #[trigger] ctx_run(
                    ctx_next(f, ContextEvent::LocalRead { state }),
                    evs.take(n),
                ).step,
            ),
{
    let f1 = ctx_next(f, ContextEvent::LocalRead { state });
    assert forall|n: int| 0 <= n <= evs.len() implies !is_write_step(
        #[trigger] ctx_run(f1, evs.take(n)).step,
    ) by {
        lemma_terminal_stays(f1, evs.take(n));
    }
}

/// What a completed first run leaves behind: after the cluster, identity
/// and context entries go through the store's "set named entry"
/// operation in that order, the resulting state holds all three
/// expected entries, so the next run reads it and performs zero writes.
pub proof fn lemma_writes_converge(
    ls0: LocalState,
    c: ClusterEntry,
    id: IdentityEntry,
    cx: ContextEntry,
    ls1: LocalState,
    ls2: LocalState,
    ls3: LocalState,
)
    requires
        kubeconfig::sets_cluster(ls0, c, ls1),
        kubeconfig::sets_identity(ls1, id, ls2),
        kubeconfig::sets_context(ls2, cx, ls3),
    ensures
        kubeconfig::cluster_in(ls3, c),
        kubeconfig::identity_in(ls3, id),
        kubeconfig::context_in(ls3, cx),
{
}

/// Ordering: a flow only reaches the context write from the identity
/// check or the identity write, never before both prerequisite entries
/// were reconciled, and never out of a failed flow.
pub proof fn lemma_write_order(f: ContextFlow, ev: ContextEvent)
    ensures
        (ctx_next(f, ev).step is WriteContext && !(f.step is WriteContext)) ==> (f.step
            is ReadLocal || f.step is WriteIdentity),
        (ctx_next(f, ev).step is WriteContext && f.step is ReadLocal) ==> (ev matches
            ContextEvent::LocalRead { state } && kubeconfig::identity_in(
            state,
            f.expected_identity,
        ) && !kubeconfig::context_in(state, f.expected_context)),
        (ctx_next(f, ev).step is WriteContext && f.step is WriteIdentity) ==> ev is ToolOk,
        (ctx_next(f, ev).step is WriteIdentity && !(f.step is WriteIdentity)) ==> (f.step
            is Describe || f.step is CleanupAfterOk),
        (ctx_next(f, ev).step is WriteIdentity && f.step is CleanupAfterOk) ==> ev is ToolOk,
        (ctx_next(f, ev).step is WriteIdentity && f.step is Describe) ==> (ev matches
            ContextEvent::DescribeOk { endpoint, cert } && f.local matches Some(ls)
            && kubeconfig::cluster_in(
            ls,
            ClusterEntry {
                name: f.cluster_name,
                server: endpoint,
                certificate_authority_data: cert,
            },
        )),
        f.step is Failed ==> ctx_next(f, ev) == f,
{
}

/// Guaranteed cleanup: the temp certificate file only comes to exist
/// when the certificate is staged, and the flow only moves past a live
/// file through a cleanup step, so the file is gone at every terminal
/// step; after a failed cluster write the flow fails with the original
/// write error, whatever the cleanup itself reports.
pub proof fn lemma_cert_file_scoped(f: ContextFlow, ev: ContextEvent)
    ensures
        (!cert_file_live(f.step) && cert_file_live(ctx_next(f, ev).step)) ==> (f.step matches
            ContextStep::StageCert { cluster } && ev matches ContextEvent::StagedOk { path }),
        (cert_file_live(f.step) && !cert_file_live(ctx_next(f, ev).step)) ==> (f.step
            is CleanupAfterOk || f.step is CleanupAfterErr),
        ctx_next(f, ev).step is Done ==> !cert_file_live(ctx_next(f, ev).step),
        ctx_next(f, ev).step is Failed ==> !cert_file_live(ctx_next(f, ev).step),
{
}

/// After a failed cluster write, the error surfaced to the caller is the
/// original write error, not a cleanup error.
pub proof fn lemma_cleanup_keeps_write_error(f: ContextFlow, ev: ContextEvent)
    requires
        f.step matches ContextStep::CleanupAfterErr { diag },
    ensures
        (ev is ToolOk || ev is ToolErr) ==> (f.step matches ContextStep::CleanupAfterErr { diag }
            && ctx_next(f, ev).step == (ContextStep::Failed {
            error: Error::ExternalTool { diag },
        })),
{
}

/// Exact-match sensitivity: with the cluster registration and context
/// binding already in place but a drifted identity descriptor, the run
/// looks up the cluster, skips the cluster write, rewrites exactly the
/// identity entry, and finishes without touching the context entry.
pub proof fn lemma_identity_drift_rewrites_identity_only(
    f: ContextFlow,
    state: LocalState,
    endpoint: String,
    cert: String,
)
    requires
        f.step is ReadLocal,
        !kubeconfig::identity_in(state, f.expected_identity),
        kubeconfig::context_in(state, f.expected_context),
        kubeconfig::cluster_in(
            state,
            ClusterEntry {
                name: f.cluster_name,
                server: endpoint,
                certificate_authority_data: cert,
            },
        ),
    ensures
        ctx_next(f, ContextEvent::LocalRead { state }).step is Describe,
        ctx_run(
            f,
            seq![
                ContextEvent::LocalRead { state },
                ContextEvent::DescribeOk { endpoint, cert },
            ],
        ).step is WriteIdentity,
        ctx_run(
            f,
            seq![
                ContextEvent::LocalRead { state },
                ContextEvent::DescribeOk { endpoint, cert },
                ContextEvent::ToolOk,
            ],
        ).step is Done,
{
    let e1 = ContextEvent::LocalRead { state };
    let e2 = ContextEvent::DescribeOk { endpoint, cert };
    let e3 = ContextEvent::ToolOk;
    let f1 = ctx_next(f, e1);
    let f2 = ctx_next(f1, e2);
    let f3 = ctx_next(f2, e3);
    let s2 = seq![e1, e2];
    let s3 = seq![e1, e2, e3];
    assert(ctx_run(f, s2) == ctx_run(f1, s2.skip(1)));
    assert(s2.skip(1) =~= seq![e2]);
    assert(ctx_run(f1, seq![e2]) == ctx_run(f2, seq![e2].skip(1)));
    assert(seq![e2].skip(1) =~= Seq::<ContextEvent>::empty());
    assert(ctx_run(f2, Seq::<ContextEvent>::empty()) == f2);
    assert(ctx_run(f, s3) == ctx_run(f1, s3.skip(1)));
    assert(s3.skip(1) =~= seq![e2, e3]);
    assert(ctx_run(f1, seq![e2, e3]) == ctx_run(f2, seq![e2, e3].skip(1)));
    assert(seq![e2, e3].skip(1) =~= seq![e3]);
    assert(ctx_run(f2, seq![e3]) == ctx_run(f3, seq![e3].skip(1)));
    assert(seq![e3].skip(1) =~= Seq::<ContextEvent>::empty());
    assert(ctx_run(f3, Seq::<ContextEvent>::empty()) == f3);
}

} // verus!
