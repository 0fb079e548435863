use vstd::prelude::*;

use crate::config::Context;
use crate::text;

verus! {

/// One environment entry of an exec credential descriptor.
#[derive(Debug)]
pub struct EnvEntry {
    pub name: String,
    pub value: String,
}

/// An exec credential descriptor: the local cluster client runs this
/// command to mint a short-lived bearer token. Field names, argument
/// order and environment encoding must match the downstream
/// exec-credential protocol exactly, because entry comparison is
/// field-exact and any drift forces spurious rewrites.
#[derive(Debug)]
pub struct ExecConfig {
    pub api_version: String,
    pub command: String,
    pub args: Vec<String>,
    pub env: Vec<EnvEntry>,
}

/// A named identity entry of the local store.
#[derive(Debug)]
pub struct IdentityEntry {
    pub name: String,
    pub exec_config: ExecConfig,
}

/// A named cluster registration of the local store: server URL plus
/// base64-encoded certificate-authority data.
#[derive(Debug)]
pub struct ClusterEntry {
    pub name: String,
    pub server: String,
    pub certificate_authority_data: String,
}

/// A named context binding of the local store.
#[derive(Debug)]
pub struct ContextEntry {
    pub name: String,
    pub cluster: String,
    pub user: String,
    pub namespace: String,
}

/// The relevant contents of the ambient local cluster-access
/// configuration. The underlying file is externally owned and may hold
/// unrelated entries; it is re-read fresh for every reconciliation call,
/// never cached across them.
#[derive(Debug)]
pub struct LocalState {
    pub identities: Vec<IdentityEntry>,
    pub clusters: Vec<ClusterEntry>,
    pub contexts: Vec<ContextEntry>,
}

/// Exact-field equality of environment entries.
pub open spec fn env_eq(a: EnvEntry, b: EnvEntry) -> bool {
    a.name@ == b.name@ && a.value@ == b.value@
}

/// Elementwise equality of argument lists.
pub open spec fn str_seq_eq(a: Seq<String>, b: Seq<String>) -> bool {
    a.len() == b.len() && forall|i: int| 0 <= i < a.len() ==> a[i]@ == #[trigger] b[i]@
}

/// Elementwise equality of environment lists.
pub open spec fn env_seq_eq(a: Seq<EnvEntry>, b: Seq<EnvEntry>) -> bool {
    a.len() == b.len() && forall|i: int| 0 <= i < a.len() ==> env_eq(a[i], #[trigger] b[i])
}

/// Exact-field equality of exec credential descriptors: the full
/// generated descriptor must match, field for field.
pub open spec fn exec_eq(a: ExecConfig, b: ExecConfig) -> bool {
    &&& a.api_version@ == b.api_version@
    &&& a.command@ == b.command@
    &&& str_seq_eq(a.args@, b.args@)
    &&& env_seq_eq(a.env@, b.env@)
}

/// Exact-field equality of identity entries.
pub open spec fn identity_eq(a: IdentityEntry, b: IdentityEntry) -> bool {
    a.name@ == b.name@ && exec_eq(a.exec_config, b.exec_config)
}

/// Exact-field equality of cluster registrations.
pub open spec fn cluster_eq(a: ClusterEntry, b: ClusterEntry) -> bool {
    &&& a.name@ == b.name@
    &&& a.server@ == b.server@
    &&& a.certificate_authority_data@ == b.certificate_authority_data@
}

/// Exact-field equality of context bindings.
pub open spec fn context_entry_eq(a: ContextEntry, b: ContextEntry) -> bool {
    &&& a.name@ == b.name@
    &&& a.cluster@ == b.cluster@
    &&& a.user@ == b.user@
    &&& a.namespace@ == b.namespace@
}

/// The local store holds an identity entry exactly equal to `e`.
pub open spec fn identity_in(ls: LocalState, e: IdentityEntry) -> bool {
    exists|i: int|
        0 <= i < ls.identities@.len() && #[trigger] identity_eq(ls.identities@[i], e)
}

/// The local store holds a cluster registration exactly equal to `e`.
pub open spec fn cluster_in(ls: LocalState, e: ClusterEntry) -> bool {
    exists|i: int| 0 <= i < ls.clusters@.len() && #[trigger] cluster_eq(ls.clusters@[i], e)
}

/// The local store holds a context binding exactly equal to `e`.
pub open spec fn context_in(ls: LocalState, e: ContextEntry) -> bool {
    exists|i: int| 0 <= i < ls.contexts@.len() && #[trigger] context_entry_eq(ls.contexts@[i], e)
}

/// The context entry that a declared context binding calls for: the
/// binding's own name doubles as the user reference.
pub open spec fn desired_context_entry(c: Context) -> ContextEntry {
    ContextEntry { name: c.name, cluster: c.cluster, user: c.name, namespace: c.namespace }
}

fn env_entry_matches(a: &EnvEntry, b: &EnvEntry) -> (r: bool)
    ensures
        r == env_eq(*a, *b),
{
    a.name == b.name && a.value == b.value
}

fn string_vec_matches(a: &Vec<String>, b: &Vec<String>) -> (r: bool)
    ensures
        r == str_seq_eq(a@, b@),
{
    if a.len() != b.len() {
        return false;
    }
    let mut i: usize = 0;
    while i < a.len()
        invariant
            a@.len() == b@.len(),
            i <= a@.len(),
            forall|j: int| 0 <= j < i ==> a@[j]@ == #[trigger] b@[j]@,
        decreases a@.len() - i,
    {
        if a[i] != b[i] {
            return false;
        }
        i = i + 1;
    }
    true
}

fn env_vec_matches(a: &Vec<EnvEntry>, b: &Vec<EnvEntry>) -> (r: bool)
    ensures
        r == env_seq_eq(a@, b@),
{
    if a.len() != b.len() {
        return false;
    }
    let mut i: usize = 0;
    while i < a.len()
        invariant
            a@.len() == b@.len(),
            i <= a@.len(),
            forall|j: int| 0 <= j < i ==> env_eq(a@[j], #[trigger] b@[j]),
        decreases a@.len() - i,
    {
        if !env_entry_matches(&a[i], &b[i]) {
            return false;
        }
        i = i + 1;
    }
    true
}

/// Decides exact-field equality of exec credential descriptors.
pub fn exec_matches(a: &ExecConfig, b: &ExecConfig) -> (r: bool)
    ensures
        r == exec_eq(*a, *b),
{
    a.api_version == b.api_version && a.command == b.command && string_vec_matches(
        &a.args,
        &b.args,
    ) && env_vec_matches(&a.env, &b.env)
}

/// Decides exact-field equality of identity entries.
pub fn identity_matches(a: &IdentityEntry, b: &IdentityEntry) -> (r: bool)
    ensures
        r == identity_eq(*a, *b),
{
    a.name == b.name && exec_matches(&a.exec_config, &b.exec_config)
}

/// Decides exact-field equality of cluster registrations.
pub fn cluster_matches(a: &ClusterEntry, b: &ClusterEntry) -> (r: bool)
    ensures
        r == cluster_eq(*a, *b),
{
    a.name == b.name && a.server == b.server && a.certificate_authority_data
        == b.certificate_authority_data
}

/// Decides exact-field equality of context bindings.
pub fn context_matches(a: &ContextEntry, b: &ContextEntry) -> (r: bool)
    ensures
        r == context_entry_eq(*a, *b),
{
    a.name == b.name && a.cluster == b.cluster && a.user == b.user && a.namespace == b.namespace
}

/// Whether the local store holds an identity entry exactly equal to `e`.
pub fn identity_exists(ls: &LocalState, e: &IdentityEntry) -> (r: bool)
    ensures
        r == identity_in(*ls, *e),
{
    let mut i: usize = 0;
    while i < ls.identities.len()
        invariant
            i <= ls.identities@.len(),
            forall|j: int| 0 <= j < i ==> !identity_eq(#[trigger] ls.identities@[j], *e),
        decreases ls.identities@.len() - i,
    {
        if identity_matches(&ls.identities[i], e) {
            return true;
        }
        i = i + 1;
    }
    false
}

/// Whether the local store holds a cluster registration exactly equal to
/// `e`.
pub fn cluster_registered(ls: &LocalState, e: &ClusterEntry) -> (r: bool)
    ensures
        r == cluster_in(*ls, *e),
{
    let mut i: usize = 0;
    while i < ls.clusters.len()
        invariant
            i <= ls.clusters@.len(),
            forall|j: int| 0 <= j < i ==> !cluster_eq(#[trigger] ls.clusters@[j], *e),
        decreases ls.clusters@.len() - i,
    {
        if cluster_matches(&ls.clusters[i], e) {
            return true;
        }
        i = i + 1;
    }
    false
}

/// Whether the local store holds a context binding exactly equal to `e`.
pub fn context_registered(ls: &LocalState, e: &ContextEntry) -> (r: bool)
    ensures
        r == context_in(*ls, *e),
{
    let mut i: usize = 0;
    while i < ls.contexts.len()
        invariant
            i <= ls.contexts@.len(),
            forall|j: int| 0 <= j < i ==> !context_entry_eq(#[trigger] ls.contexts@[j], *e),
        decreases ls.contexts@.len() - i,
    {
        if context_matches(&ls.contexts[i], e) {
            return true;
        }
        i = i + 1;
    }
    false
}

/// Whether the local store already binds the declared context: name,
/// cluster reference, user reference and namespace must all match.
pub fn context_exists(ls: &LocalState, context: &Context) -> (r: bool)
    ensures
        r == context_in(*ls, desired_context_entry(*context)),
{
    let e = ContextEntry {
        name: context.name.clone(),
        cluster: context.cluster.clone(),
        user: context.name.clone(),
        namespace: context.namespace.clone(),
    };
    context_registered(ls, &e)
}

/// Whether a `config view` listing of user names contains `name` as a
/// whole word.
pub fn auth_exists(output: &str, name: &str) -> (r: bool)
    ensures
        r == text::has_token(output@, name@),
{
    text::contains_token(output, name)
}

/// Whether a `config get-clusters` listing contains `name` as a whole
/// word.
pub fn cluster_exists(output: &str, name: &str) -> (r: bool)
    ensures
        r == text::has_token(output@, name@),
{
    text::contains_token(output, name)
}

/// The local-store invocation that sets a named context binding.
pub fn create_context(name: &str, auth: &str, cluster: &str, namespace: &str) -> (r: Vec<String>)
    ensures
        r@.len() == 9,
        r@[0]@ == "config"@,
        r@[1]@ == "set-context"@,
        r@[2]@ == name@,
        r@[3]@ == "--cluster"@,
        r@[4]@ == cluster@,
        r@[5]@ == "--user"@,
        r@[6]@ == auth@,
        r@[7]@ == "--namespace"@,
        r@[8]@ == namespace@,
{
    let mut r: Vec<String> = Vec::new();
    r.push(String::from_str("config"));
    r.push(String::from_str("set-context"));
    r.push(name.to_owned());
    r.push(String::from_str("--cluster"));
    r.push(cluster.to_owned());
    r.push(String::from_str("--user"));
    r.push(auth.to_owned());
    r.push(String::from_str("--namespace"));
    r.push(namespace.to_owned());
    r
}

/// The local-store invocation that sets a named identity entry, given
/// pre-built credential arguments.
pub fn create_auth(name: &str, args: &Vec<String>) -> (r: Vec<String>)
    ensures
        r@.len() == 3 + args@.len(),
        r@[0]@ == "config"@,
        r@[1]@ == "set-credentials"@,
        r@[2]@ == name@,
        forall|i: int| 0 <= i < args@.len() ==> r@[3 + i]@ == #[trigger] args@[i]@,
{
    let mut r: Vec<String> = Vec::new();
    r.push(String::from_str("config"));
    r.push(String::from_str("set-credentials"));
    r.push(name.to_owned());
    let mut i: usize = 0;
    while i < args.len()
        invariant
            i <= args@.len(),
            r@.len() == 3 + i,
            r@[0]@ == "config"@,
            r@[1]@ == "set-credentials"@,
            r@[2]@ == name@,
            forall|j: int| 0 <= j < i ==> r@[3 + j]@ == #[trigger] args@[j]@,
        decreases args@.len() - i,
    {
        r.push(args[i].clone());
        i = i + 1;
    }
    r
}

/// The local-store invocation that sets a named cluster registration,
/// given pre-built cluster arguments.
pub fn create_cluster(name: &str, args: &Vec<String>) -> (r: Vec<String>)
    ensures
        r@.len() == 3 + args@.len(),
        r@[0]@ == "config"@,
        r@[1]@ == "set-cluster"@,
        r@[2]@ == name@,
        forall|i: int| 0 <= i < args@.len() ==> r@[3 + i]@ == #[trigger] args@[i]@,
{
    let mut r: Vec<String> = Vec::new();
    r.push(String::from_str("config"));
    r.push(String::from_str("set-cluster"));
    r.push(name.to_owned());
    let mut i: usize = 0;
    while i < args.len()
        invariant
            i <= args@.len(),
            r@.len() == 3 + i,
            r@[0]@ == "config"@,
            r@[1]@ == "set-cluster"@,
            r@[2]@ == name@,
            forall|j: int| 0 <= j < i ==> r@[3 + j]@ == #[trigger] args@[j]@,
        decreases args@.len() - i,
    {
        r.push(args[i].clone());
        i = i + 1;
    }
    r
}

/// What the store's own "set named entry" operation guarantees for an
/// identity write: afterwards the written entry is present, entries of
/// the other two kinds are untouched, and identity entries under other
/// names survive.
pub open spec fn sets_identity(pre: LocalState, e: IdentityEntry, post: LocalState) -> bool {
    &&& identity_in(post, e)
    &&& post.clusters@ == pre.clusters@
    &&& post.contexts@ == pre.contexts@
    &&& forall|i: int|
        0 <= i < pre.identities@.len() && (#[trigger] pre.identities@[i]).name@ != e.name@
            ==> identity_in(post, pre.identities@[i])
}

/// What the store's own "set named entry" operation guarantees for a
/// cluster write.
pub open spec fn sets_cluster(pre: LocalState, e: ClusterEntry, post: LocalState) -> bool {
    &&& cluster_in(post, e)
    &&& post.identities@ == pre.identities@
    &&& post.contexts@ == pre.contexts@
    &&& forall|i: int|
        0 <= i < pre.clusters@.len() && (#[trigger] pre.clusters@[i]).name@ != e.name@
            ==> cluster_in(post, pre.clusters@[i])
}

/// What the store's own "set named entry" operation guarantees for a
/// context write.
pub open spec fn sets_context(pre: LocalState, e: ContextEntry, post: LocalState) -> bool {
    &&& context_in(post, e)
    &&& post.identities@ == pre.identities@
    &&& post.clusters@ == pre.clusters@
    &&& forall|i: int|
        0 <= i < pre.contexts@.len() && (#[trigger] pre.contexts@[i]).name@ != e.name@
            ==> context_in(post, pre.contexts@[i])
}

} // verus!
