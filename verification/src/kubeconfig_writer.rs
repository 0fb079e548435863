use vstd::prelude::*;

use crate::errors::Error;
use crate::kubeconfig::{ClusterEntry, IdentityEntry};
use crate::kubeconfig;

verus! {

/// The encoding of one exec environment entry on the delegated
/// command line: `name=value`.
pub open spec fn env_arg(name: Seq<char>, value: Seq<char>) -> Seq<char> {
    name + "="@ + value
}

/// The argument vector that sets a named identity entry from an exec
/// credential descriptor: command, API version, then every descriptor
/// argument and every environment entry, in order.
pub open spec fn is_write_auth_args(r: Seq<String>, e: IdentityEntry) -> bool {
    let args = e.exec_config.args@;
    let env = e.exec_config.env@;
    &&& r.len() == 7 + 2 * args.len() + 2 * env.len()
    &&& r[0]@ == "config"@
    &&& r[1]@ == "set-credentials"@
    &&& r[2]@ == e.name@
    &&& r[3]@ == "--exec-command"@
    &&& r[4]@ == e.exec_config.command@
    &&& r[5]@ == "--exec-api-version"@
    &&& r[6]@ == e.exec_config.api_version@
    &&& forall|i: int| 0 <= i < args.len() ==> (#[trigger] r[7 + 2 * i]@) == "--exec-arg"@
    &&& forall|i: int| 0 <= i < args.len() ==> (#[trigger] r[7 + 2 * i + 1]@) == args[i]@
    &&& forall|i: int|
        0 <= i < env.len() ==> (#[trigger] r[7 + 2 * args.len() + 2 * i]@) == "--exec-env"@
    &&& forall|i: int|
        0 <= i < env.len() ==> (#[trigger] r[7 + 2 * args.len() + 2 * i + 1]@) == env_arg(
            env[i].name@,
            env[i].value@,
        )
}

/// Builds the local-store invocation that sets a named identity entry.
pub fn write_auth(auth: &IdentityEntry) -> (r: Vec<String>)
    ensures
        is_write_auth_args(r@, *auth),
{
    let mut r: Vec<String> = Vec::new();
    r.push(String::from_str("config"));
    r.push(String::from_str("set-credentials"));
    r.push(auth.name.clone());
    r.push(String::from_str("--exec-command"));
    r.push(auth.exec_config.command.clone());
    r.push(String::from_str("--exec-api-version"));
    r.push(auth.exec_config.api_version.clone());
    let mut i: usize = 0;
    while i < auth.exec_config.args.len()
        invariant
            i <= auth.exec_config.args@.len(),
            r@.len() == 7 + 2 * i,
            r@[0]@ == "config"@,
            r@[1]@ == "set-credentials"@,
            r@[2]@ == auth.name@,
            r@[3]@ == "--exec-command"@,
            r@[4]@ == auth.exec_config.command@,
            r@[5]@ == "--exec-api-version"@,
            r@[6]@ == auth.exec_config.api_version@,
            forall|j: int| 0 <= j < i ==> (#[trigger] r@[7 + 2 * j]@) == "--exec-arg"@,
            forall|j: int|
                0 <= j < i ==> (#[trigger] r@[7 + 2 * j + 1]@) == auth.exec_config.args@[j]@,
        decreases auth.exec_config.args@.len() - i,
    {
        let ghost r0 = r@;
        r.push(String::from_str("--exec-arg"));
        r.push(auth.exec_config.args[i].clone());
        proof {
            assert forall|j: int| 0 <= j < i + 1 implies (#[trigger] r@[7 + 2 * j]@)
                == "--exec-arg"@ by {
                if j < i {
                    assert(r0[7 + 2 * j]@ == "--exec-arg"@);
                    assert(r@[7 + 2 * j] == r0[7 + 2 * j]);
                } else {
                    assert(7 + 2 * j == r0.len());
                    assert(r@[7 + 2 * j]@ == "--exec-arg"@);
                }
            }
            assert forall|j: int| 0 <= j < i + 1 implies (#[trigger] r@[7 + 2 * j + 1]@)
                == auth.exec_config.args@[j]@ by {
                if j < i {
                    assert(r0[7 + 2 * j + 1]@ == auth.exec_config.args@[j]@);
                    assert(r@[7 + 2 * j + 1] == r0[7 + 2 * j + 1]);
                } else {
                    assert(7 + 2 * j + 1 == r0.len() + 1);
                    assert(r@[7 + 2 * j + 1]@ == auth.exec_config.args@[j]@);
                }
            }
        }
        i = i + 1;
    }
    let ghost base = 7 + 2 * auth.exec_config.args@.len();
    let mut k: usize = 0;
    while k < auth.exec_config.env.len()
        invariant
            base == 7 + 2 * auth.exec_config.args@.len(),
            k <= auth.exec_config.env@.len(),
            r@.len() == base + 2 * k,
            r@[0]@ == "config"@,
            r@[1]@ == "set-credentials"@,
            r@[2]@ == auth.name@,
            r@[3]@ == "--exec-command"@,
            r@[4]@ == auth.exec_config.command@,
            r@[5]@ == "--exec-api-version"@,
            r@[6]@ == auth.exec_config.api_version@,
            forall|j: int|
                0 <= j < auth.exec_config.args@.len() ==> (#[trigger] r@[7 + 2 * j]@)
                    == "--exec-arg"@,
            forall|j: int|
                0 <= j < auth.exec_config.args@.len() ==> (#[trigger] r@[7 + 2 * j + 1]@)
                    == auth.exec_config.args@[j]@,
            forall|j: int| 0 <= j < k ==> (#[trigger] r@[base + 2 * j]@) == "--exec-env"@,
            forall|j: int|
                0 <= j < k ==> (#[trigger] r@[base + 2 * j + 1]@) == env_arg(
                    auth.exec_config.env@[j].name@,
                    auth.exec_config.env@[j].value@,
                ),
        decreases auth.exec_config.env@.len() - k,
    {
        let ghost r0 = r@;
        r.push(String::from_str("--exec-env"));
        let mut pair = auth.exec_config.env[k].name.clone();
        pair.append("=");
        pair.append(auth.exec_config.env[k].value.as_str());
        r.push(pair);
        proof {
            assert forall|j: int| 0 <= j < auth.exec_config.args@.len() implies (
            #[trigger] r@[7 + 2 * j]@) == "--exec-arg"@ by {
                assert(r0[7 + 2 * j]@ == "--exec-arg"@);
                assert(r@[7 + 2 * j] == r0[7 + 2 * j]);
            }
            assert forall|j: int| 0 <= j < auth.exec_config.args@.len() implies (
            #[trigger] r@[7 + 2 * j + 1]@) == auth.exec_config.args@[j]@ by {
                assert(r0[7 + 2 * j + 1]@ == auth.exec_config.args@[j]@);
                assert(r@[7 + 2 * j + 1] == r0[7 + 2 * j + 1]);
            }
            assert forall|j: int| 0 <= j < k + 1 implies (#[trigger] r@[base + 2 * j]@)
                == "--exec-env"@ by {
                if j < k {
                    assert(r0[base + 2 * j]@ == "--exec-env"@);
                    assert(r@[base + 2 * j] == r0[base + 2 * j]);
                } else {
                    assert(base + 2 * j == r0.len());
                    assert(r@[base + 2 * j]@ == "--exec-env"@);
                }
            }
            assert forall|j: int| 0 <= j < k + 1 implies (#[trigger] r@[base + 2 * j + 1]@)
                == env_arg(auth.exec_config.env@[j].name@, auth.exec_config.env@[j].value@) by {
                if j < k {
                    assert(r0[base + 2 * j + 1]@ == env_arg(
                        auth.exec_config.env@[j].name@,
                        auth.exec_config.env@[j].value@,
                    ));
                    assert(r@[base + 2 * j + 1] == r0[base + 2 * j + 1]);
                } else {
                    assert(base + 2 * j + 1 == r0.len() + 1);
                    assert(r@[base + 2 * j + 1]@ == env_arg(
                        auth.exec_config.env@[j].name@,
                        auth.exec_config.env@[j].value@,
                    ));
                }
            }
        }
        k = k + 1;
    }
    r
}

/// The argument vector that sets the named context binding `e`.
pub open spec fn is_write_context_args(r: Seq<String>, e: crate::kubeconfig::ContextEntry) -> bool {
    &&& r.len() == 9
    &&& r[0]@ == "config"@
    &&& r[1]@ == "set-context"@
    &&& r[2]@ == e.name@
    &&& r[3]@ == "--cluster"@
    &&& r[4]@ == e.cluster@
    &&& r[5]@ == "--user"@
    &&& r[6]@ == e.user@
    &&& r[7]@ == "--namespace"@
    &&& r[8]@ == e.namespace@
}

/// Builds the local-store invocation that sets a named context binding.
pub fn write_context(name: &str, auth: &str, cluster: &str, namespace: &str) -> (r: Vec<String>)
    ensures
        r@.len() == 9,
        r@[0]@ == "config"@,
        r@[1]@ == "set-context"@,
        r@[2]@ == name@,
        r@[3]@ == "--cluster"@,
        r@[4]@ == cluster@,
        r@[5]@ == "--user"@,
        r@[6]@ == auth@,
        r@[7]@ == "--namespace"@,
        r@[8]@ == namespace@,
{
    kubeconfig::create_context(name, auth, cluster, namespace)
}

/// The argument vector that sets a named cluster registration, embedding
/// the certificate staged at `ca_path`.
pub open spec fn is_write_cluster_args(r: Seq<String>, c: ClusterEntry, ca_path: Seq<char>) -> bool {
    &&& r.len() == 8
    &&& r[0]@ == "config"@
    &&& r[1]@ == "set-cluster"@
    &&& r[2]@ == c.name@
    &&& r[3]@ == "--server"@
    &&& r[4]@ == c.server@
    &&& r[5]@ == "--embed-certs"@
    &&& r[6]@ == "--certificate-authority"@
    &&& r[7]@ == ca_path
}

/// Builds the local-store invocation that sets a named cluster
/// registration. The certificate-authority bytes must already be staged
/// in a temp file at `ca_path`; the delegated call embeds them.
pub fn write_cluster(cluster: &ClusterEntry, ca_path: &str) -> (r: Vec<String>)
    ensures
        is_write_cluster_args(r@, *cluster, ca_path@),
{
    let mut r: Vec<String> = Vec::new();
    r.push(String::from_str("config"));
    r.push(String::from_str("set-cluster"));
    r.push(cluster.name.clone());
    r.push(String::from_str("--server"));
    r.push(cluster.server.clone());
    r.push(String::from_str("--embed-certs"));
    r.push(String::from_str("--certificate-authority"));
    r.push(ca_path.to_owned());
    r
}

/// The bytes that a base64 decoding of `s` yields when it succeeds.
pub uninterp spec fn base64_decoded(s: Seq<char>) -> Seq<u8>;

/// Relies on `base64::decode` (standard alphabet, with padding): on
/// success the decoded bytes are a function of the input characters
/// alone; on failure the decode error is rendered as text.
#[verifier::external_body]
fn decode_base64(s: &str) -> (r: Result<Vec<u8>, String>)
    ensures
        r matches Ok(b) ==> b@ == base64_decoded(s@),
{
    match base64::decode(s) {
        Ok(b) => Ok(b),
        Err(e) => Err(format!("{}", e)),
    }
}

/// Decodes a cluster registration's certificate-authority data into the
/// raw bytes to stage into the temp certificate file, or reports the
/// decode failure as a delegated-tool error.
pub fn stage_certificate(cluster: &ClusterEntry) -> (r: Result<Vec<u8>, Error>)
    ensures
        r matches Ok(b) ==> b@ == base64_decoded(cluster.certificate_authority_data@),
        r matches Err(e) ==> e is ExternalTool,
{
    match decode_base64(cluster.certificate_authority_data.as_str()) {
        Ok(b) => Ok(b),
        Err(diag) => Err(Error::ExternalTool { diag }),
    }
}

} // verus!
