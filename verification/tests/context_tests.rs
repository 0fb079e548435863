use flightctl::config::{
    Auth, AuthConfig, Cluster, ClusterConfig, Config, Context, ManifestConfig, Release,
};
use flightctl::context::{self, ContextEvent, ContextStep};
use flightctl::errors::Error;
use flightctl::kubeconfig::{
    ClusterEntry, ContextEntry, EnvEntry, ExecConfig, IdentityEntry, LocalState,
};

fn sample_config() -> Config {
    Config {
        api_version: String::from("v1"),
        applications: vec![],
        auth: vec![Auth {
            name: String::from("default"),
            config: AuthConfig::AwsSso {
                config: vec![(String::from("sso_region"), String::from("us-east-1"))],
            },
        }],
        clusters: vec![Cluster {
            name: String::from("main"),
            auth: String::from("default"),
            config: ClusterConfig::Eks {
                name: String::from("foo"),
                region: String::from("us-east-1"),
            },
        }],
        contexts: vec![Context {
            auth: String::from("default"),
            cluster: String::from("main"),
            name: String::from("prod"),
            namespace: String::from("app"),
        }],
        kind: String::from("Workspace"),
        releases: vec![Release {
            application: String::from("web"),
            context: String::from("prod"),
            environment: String::from("production"),
            manifests: ManifestConfig::Kustomize { path: String::from("overlays/prod") },
            name: String::from("web-prod"),
        }],
    }
}

fn expected_identity() -> IdentityEntry {
    IdentityEntry {
        name: String::from("prod"),
        exec_config: ExecConfig {
            api_version: String::from("client.authentication.k8s.io/v1alpha1"),
            command: String::from("aws"),
            args: vec![
                String::from("--region"),
                String::from("us-east-1"),
                String::from("eks"),
                String::from("get-token"),
                String::from("--cluster-name"),
                String::from("foo"),
            ],
            env: vec![EnvEntry {
                name: String::from("AWS_PROFILE"),
                value: String::from("default"),
            }],
        },
    }
}

fn expected_cluster() -> ClusterEntry {
    ClusterEntry {
        name: String::from("main"),
        server: String::from("https://x"),
        certificate_authority_data: String::from("aGVsbG8="),
    }
}

fn expected_context() -> ContextEntry {
    ContextEntry {
        name: String::from("prod"),
        cluster: String::from("main"),
        user: String::from("prod"),
        namespace: String::from("app"),
    }
}

fn converged_state() -> LocalState {
    LocalState {
        identities: vec![expected_identity()],
        clusters: vec![expected_cluster()],
        contexts: vec![expected_context()],
    }
}

#[test]
fn prepare_builds_the_exact_exec_descriptor() {
    let config = sample_config();
    let flow = context::prepare(&config, &config.releases[0]).unwrap();
    assert!(matches!(flow.step, ContextStep::ReadLocal));
    assert_eq!(flow.expected_identity.name, "prod");
    assert_eq!(
        flow.expected_identity.exec_config.api_version,
        "client.authentication.k8s.io/v1alpha1"
    );
    assert_eq!(flow.expected_identity.exec_config.command, "aws");
    assert_eq!(
        flow.expected_identity.exec_config.args,
        vec!["--region", "us-east-1", "eks", "get-token", "--cluster-name", "foo"]
    );
    assert_eq!(flow.expected_identity.exec_config.env.len(), 1);
    assert_eq!(flow.expected_identity.exec_config.env[0].name, "AWS_PROFILE");
    assert_eq!(flow.expected_identity.exec_config.env[0].value, "default");
    assert_eq!(flow.expected_context.name, "prod");
    assert_eq!(flow.expected_context.cluster, "main");
    assert_eq!(flow.expected_context.user, "prod");
    assert_eq!(flow.expected_context.namespace, "app");
    assert_eq!(flow.cluster_name, "main");
    assert_eq!(flow.eks_profile, "default");
    assert_eq!(flow.eks_region, "us-east-1");
    assert_eq!(flow.eks_name, "foo");
}

#[test]
fn missing_cluster_reference_fails_before_any_call() {
    let mut config = sample_config();
    config.contexts[0].cluster = String::from("none-such");
    let err = context::prepare(&config, &config.releases[0]).unwrap_err();
    match err {
        Error::ConfigReference { kind, holder, missing } => {
            assert_eq!(kind, "cluster");
            assert_eq!(holder, "prod");
            assert_eq!(missing, "none-such");
        }
        _ => panic!("expected a configuration reference error"),
    }
}

#[test]
fn converged_state_finishes_without_any_write() {
    let config = sample_config();
    let flow = context::prepare(&config, &config.releases[0]).unwrap();
    let flow = flow.step(ContextEvent::LocalRead { state: converged_state() });
    assert!(matches!(flow.step, ContextStep::Done));
    assert!(flow.command().is_none());
}

#[test]
fn second_run_after_full_write_is_idempotent() {
    let config = sample_config();
    // first run against an empty store performs all three writes
    let flow = context::prepare(&config, &config.releases[0]).unwrap();
    let empty = LocalState { identities: vec![], clusters: vec![], contexts: vec![] };
    let flow = flow.step(ContextEvent::LocalRead { state: empty });
    assert!(matches!(flow.step, ContextStep::Describe));
    let flow = flow.step(ContextEvent::DescribeOk {
        endpoint: String::from("https://x"),
        cert: String::from("aGVsbG8="),
    });
    assert!(matches!(flow.step, ContextStep::StageCert { .. }));
    let flow = flow.step(ContextEvent::StagedOk { path: String::from("/tmp/ca") });
    assert!(matches!(flow.step, ContextStep::WriteCluster { .. }));
    let flow = flow.step(ContextEvent::ToolOk);
    assert!(matches!(flow.step, ContextStep::CleanupAfterOk));
    let flow = flow.step(ContextEvent::ToolOk);
    assert!(matches!(flow.step, ContextStep::WriteIdentity));
    let flow = flow.step(ContextEvent::ToolOk);
    assert!(matches!(flow.step, ContextStep::WriteContext));
    let flow = flow.step(ContextEvent::ToolOk);
    assert!(matches!(flow.step, ContextStep::Done));

    // the store now holds exactly what was written; the second run
    // reads it and issues zero writes
    let rerun = context::prepare(&config, &config.releases[0]).unwrap();
    let rerun = rerun.step(ContextEvent::LocalRead { state: converged_state() });
    assert!(matches!(rerun.step, ContextStep::Done));
}

#[test]
fn identity_drift_rewrites_only_the_identity_entry() {
    let config = sample_config();
    // the local store holds a descriptor that differs in one field
    // (the region argument) but matching cluster and context entries
    let mut drifted = expected_identity();
    drifted.exec_config.args[1] = String::from("eu-west-1");
    let state = LocalState {
        identities: vec![drifted],
        clusters: vec![expected_cluster()],
        contexts: vec![expected_context()],
    };
    let flow = context::prepare(&config, &config.releases[0]).unwrap();
    let flow = flow.step(ContextEvent::LocalRead { state });
    assert!(matches!(flow.step, ContextStep::Describe));
    // the cluster entry matches, so the cluster write is skipped
    let flow = flow.step(ContextEvent::DescribeOk {
        endpoint: String::from("https://x"),
        cert: String::from("aGVsbG8="),
    });
    assert!(matches!(flow.step, ContextStep::WriteIdentity));
    // the context entry matches, so the run ends after the identity write
    let flow = flow.step(ContextEvent::ToolOk);
    assert!(matches!(flow.step, ContextStep::Done));
}

#[test]
fn failed_cluster_write_cleans_up_and_keeps_the_original_error() {
    let config = sample_config();
    let empty = LocalState { identities: vec![], clusters: vec![], contexts: vec![] };
    let flow = context::prepare(&config, &config.releases[0]).unwrap();
    let flow = flow.step(ContextEvent::LocalRead { state: empty });
    let flow = flow.step(ContextEvent::DescribeOk {
        endpoint: String::from("https://x"),
        cert: String::from("aGVsbG8="),
    });
    let flow = flow.step(ContextEvent::StagedOk { path: String::from("/tmp/ca") });
    assert!(matches!(flow.step, ContextStep::WriteCluster { .. }));
    // the cluster write fails; the flow must first delete the temp file
    let flow = flow.step(ContextEvent::ToolErr { diag: String::from("write failed") });
    assert!(matches!(flow.step, ContextStep::CleanupAfterErr { .. }));
    // even if the cleanup itself fails, the original write error wins
    let flow = flow.step(ContextEvent::ToolErr { diag: String::from("cleanup failed") });
    match &flow.step {
        ContextStep::Failed { error: Error::ExternalTool { diag } } => {
            assert_eq!(diag, "write failed");
        }
        _ => panic!("expected the original write error"),
    }
    // no context write ever happens after the failure
    let flow = flow.step(ContextEvent::ToolOk);
    assert!(matches!(flow.step, ContextStep::Failed { .. }));
}

#[test]
fn unreadable_state_is_a_read_error() {
    let config = sample_config();
    let flow = context::prepare(&config, &config.releases[0]).unwrap();
    let flow = flow.step(ContextEvent::ReadErr { diag: String::from("permission denied") });
    match &flow.step {
        ContextStep::Failed { error: Error::StateRead { diag } } => {
            assert_eq!(diag, "permission denied");
        }
        _ => panic!("expected a state read error"),
    }
}

#[test]
fn context_drift_alone_writes_only_the_context_entry() {
    let config = sample_config();
    let state = LocalState {
        identities: vec![expected_identity()],
        clusters: vec![expected_cluster()],
        contexts: vec![ContextEntry {
            name: String::from("prod"),
            cluster: String::from("main"),
            user: String::from("prod"),
            namespace: String::from("other"),
        }],
    };
    let flow = context::prepare(&config, &config.releases[0]).unwrap();
    let flow = flow.step(ContextEvent::LocalRead { state });
    assert!(matches!(flow.step, ContextStep::WriteContext));
    assert_eq!(
        flow.command().unwrap(),
        vec![
            "config", "set-context", "prod", "--cluster", "main", "--user", "prod",
            "--namespace", "app",
        ]
    );
    let flow = flow.step(ContextEvent::ToolOk);
    assert!(matches!(flow.step, ContextStep::Done));
}
