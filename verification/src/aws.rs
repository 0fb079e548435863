use vstd::prelude::*;

use crate::text;

verus! {

/// Live connection details of a managed cluster, as reported by the
/// cloud control plane: API endpoint plus base64-encoded
/// certificate-authority data.
#[derive(Debug)]
pub struct EksCluster {
    pub endpoint: String,
    pub cert: String,
}

/// Whether a profile listing (one profile name per line, possibly with
/// trailing whitespace) contains `profile`.
pub fn profile_exists(output: &str, profile: &str) -> (r: bool)
    ensures
        r == text::has_trimmed_line(output@, profile@),
{
    text::contains_trimmed_line(output, profile)
}

/// The argument vector that lists configured profiles.
pub open spec fn is_list_profiles_args(r: Seq<String>) -> bool {
    r.len() == 2 && r[0]@ == "configure"@ && r[1]@ == "list-profiles"@
}

/// The argument vector that sets one parameter `key = value` of a named
/// profile.
pub open spec fn is_set_profile_args(r: Seq<String>, p: Seq<char>, k: Seq<char>, v: Seq<char>) -> bool {
    &&& r.len() == 6
    &&& r[0]@ == "--profile"@
    &&& r[1]@ == p
    &&& r[2]@ == "configure"@
    &&& r[3]@ == "set"@
    &&& r[4]@ == k
    &&& r[5]@ == v
}

/// The argument vector of the identity check ("who am I") for a named
/// profile.
pub open spec fn is_verify_args(r: Seq<String>, p: Seq<char>) -> bool {
    &&& r.len() == 4
    &&& r[0]@ == "--profile"@
    &&& r[1]@ == p
    &&& r[2]@ == "sts"@
    &&& r[3]@ == "get-caller-identity"@
}

/// The argument vector of the interactive login flow for a named
/// profile.
pub open spec fn is_login_args(r: Seq<String>, p: Seq<char>) -> bool {
    &&& r.len() == 4
    &&& r[0]@ == "--profile"@
    &&& r[1]@ == p
    &&& r[2]@ == "sso"@
    &&& r[3]@ == "login"@
}

/// The argument vector that queries a managed cluster's endpoint and
/// certificate-authority data.
pub open spec fn is_describe_args(r: Seq<String>, p: Seq<char>, region: Seq<char>, name: Seq<char>) -> bool {
    &&& r.len() == 10
    &&& r[0]@ == "--profile"@
    &&& r[1]@ == p
    &&& r[2]@ == "--region"@
    &&& r[3]@ == region
    &&& r[4]@ == "eks"@
    &&& r[5]@ == "describe-cluster"@
    &&& r[6]@ == "--name"@
    &&& r[7]@ == name
    &&& r[8]@ == "--query"@
    &&& r[9]@ == "cluster.{endpoint:endpoint,cert:certificateAuthority.data}"@
}

/// Builds the profile-listing invocation.
pub fn list_profiles_args() -> (r: Vec<String>)
    ensures
        is_list_profiles_args(r@),
{
    let mut r: Vec<String> = Vec::new();
    r.push(String::from_str("configure"));
    r.push(String::from_str("list-profiles"));
    r
}

/// Builds the invocation that sets one parameter of a named profile.
pub fn set_profile_args(profile: &str, key: &str, value: &str) -> (r: Vec<String>)
    ensures
        is_set_profile_args(r@, profile@, key@, value@),
{
    let mut r: Vec<String> = Vec::new();
    r.push(String::from_str("--profile"));
    r.push(profile.to_owned());
    r.push(String::from_str("configure"));
    r.push(String::from_str("set"));
    r.push(key.to_owned());
    r.push(value.to_owned());
    r
}

/// Builds the invocations that create a named profile: one independent
/// "set" call per declared parameter, in declaration order, with no
/// transactional rollback if one of them fails partway.
pub fn create_profile(profile: &str, config: &Vec<(String, String)>) -> (r: Vec<Vec<String>>)
    ensures
        r@.len() == config@.len(),
        forall|i: int|
            0 <= i < config@.len() ==> is_set_profile_args(
                #[trigger] r@[i]@,
                profile@,
                config@[i].0@,
                config@[i].1@,
            ),
{
    let mut r: Vec<Vec<String>> = Vec::new();
    let mut i: usize = 0;
    while i < config.len()
        invariant
            i <= config@.len(),
            r@.len() == i,
            forall|j: int|
                0 <= j < i ==> is_set_profile_args(
                    #[trigger] r@[j]@,
                    profile@,
                    config@[j].0@,
                    config@[j].1@,
                ),
        decreases config@.len() - i,
    {
        let (key, value) = &config[i];
        r.push(set_profile_args(profile, key.as_str(), value.as_str()));
        i = i + 1;
    }
    r
}

/// Builds the identity-check invocation for a named profile.
pub fn verify_auth(profile: &str) -> (r: Vec<String>)
    ensures
        is_verify_args(r@, profile@),
{
    let mut r: Vec<String> = Vec::new();
    r.push(String::from_str("--profile"));
    r.push(profile.to_owned());
    r.push(String::from_str("sts"));
    r.push(String::from_str("get-caller-identity"));
    r
}

/// Builds the interactive-login invocation for a named profile. The
/// login blocks on a user and browser interaction; no timeout is imposed
/// here.
pub fn sso_login(profile: &str) -> (r: Vec<String>)
    ensures
        is_login_args(r@, profile@),
{
    let mut r: Vec<String> = Vec::new();
    r.push(String::from_str("--profile"));
    r.push(profile.to_owned());
    r.push(String::from_str("sso"));
    r.push(String::from_str("login"));
    r
}

/// Builds the managed-cluster lookup invocation: queries the cluster's
/// endpoint and certificate-authority data under a named profile within
/// a region.
pub fn get_eks_cluster_args(profile: &str, region: &str, name: &str) -> (r: Vec<String>)
    ensures
        is_describe_args(r@, profile@, region@, name@),
{
    let mut r: Vec<String> = Vec::new();
    r.push(String::from_str("--profile"));
    r.push(profile.to_owned());
    r.push(String::from_str("--region"));
    r.push(region.to_owned());
    r.push(String::from_str("eks"));
    r.push(String::from_str("describe-cluster"));
    r.push(String::from_str("--name"));
    r.push(name.to_owned());
    r.push(String::from_str("--query"));
    r.push(String::from_str("cluster.{endpoint:endpoint,cert:certificateAuthority.data}"));
    r
}

} // verus!
