use flightctl::authorize::{self, AuthEvent, AuthStep};
use flightctl::config::{
    Application, ApplicationConfig, ApplicationManifests, Auth, AuthConfig, Cluster,
    ClusterConfig, Config, Console, Context, ManifestConfig, ManifestsProvider, Release,
};
use flightctl::context::{self, ContextEvent, ContextStep};
use flightctl::kubeconfig::LocalState;
use flightctl::kubeconfig_writer;
use flightctl::selector::Selector;

fn sample_config() -> Config {
    Config {
        api_version: String::from("v1"),
        applications: vec![Application {
            manifests: ApplicationManifests {
                provider: ManifestsProvider::Kustomize,
                repo: String::from("git@example:repo"),
            },
            name: String::from("web"),
            config: ApplicationConfig::Kubectl {
                console: Some(Console::Exec {
                    command: vec![String::from("rails"), String::from("console")],
                    container: String::from("main"),
                    selector: vec![(String::from("role"), String::from("console"))],
                }),
                selector: vec![(String::from("app"), String::from("web"))],
            },
        }],
        auth: vec![Auth {
            name: String::from("default"),
            config: AuthConfig::AwsSso {
                config: vec![(String::from("sso_region"), String::from("us-east-1"))],
            },
        }],
        clusters: vec![Cluster {
            name: String::from("main"),
            auth: String::from("default"),
            config: ClusterConfig::Eks {
                name: String::from("foo"),
                region: String::from("us-east-1"),
            },
        }],
        contexts: vec![Context {
            auth: String::from("default"),
            cluster: String::from("main"),
            name: String::from("prod"),
            namespace: String::from("app"),
        }],
        kind: String::from("Workspace"),
        releases: vec![Release {
            application: String::from("web"),
            context: String::from("prod"),
            environment: String::from("production"),
            manifests: ManifestConfig::Kustomize { path: String::from("overlays/prod") },
            name: String::from("web-prod"),
        }],
    }
}

// The full provisioning scenario: the profile is missing, verification
// fails until the single login, the cluster lookup reports live details,
// and the local store starts empty. The recorded call sequence must be:
// create profile -> login -> verify -> describe -> write cluster ->
// write identity -> write context.
#[test]
fn full_provisioning_sequence() {
    let config = sample_config();
    let release = &config.releases[0];
    let mut calls: Vec<Vec<String>> = Vec::new();

    // authorization
    let mut auth_flow = authorize::run(&config, release).unwrap();
    assert_eq!(auth_flow.command().unwrap(), vec!["configure", "list-profiles"]);
    auth_flow.step(AuthEvent::Profiles { output: String::from("other\n") });
    assert!(matches!(auth_flow.step, AuthStep::CreateParam { idx: 0 }));
    calls.push(auth_flow.command().unwrap());
    auth_flow.step(AuthEvent::ToolOk);
    assert!(matches!(auth_flow.step, AuthStep::Verify { after_login: false }));
    auth_flow.step(AuthEvent::VerifyErr);
    assert!(matches!(auth_flow.step, AuthStep::Login));
    calls.push(auth_flow.command().unwrap());
    auth_flow.step(AuthEvent::ToolOk);
    assert!(matches!(auth_flow.step, AuthStep::Verify { after_login: true }));
    calls.push(auth_flow.command().unwrap());
    auth_flow.step(AuthEvent::VerifyOk);
    assert!(matches!(auth_flow.step, AuthStep::Done));

    // context reconciliation
    let flow = context::prepare(&config, release).unwrap();
    let empty = LocalState { identities: vec![], clusters: vec![], contexts: vec![] };
    let flow = flow.step(ContextEvent::LocalRead { state: empty });
    assert!(matches!(flow.step, ContextStep::Describe));
    calls.push(flow.command().unwrap());
    let flow = flow.step(ContextEvent::DescribeOk {
        endpoint: String::from("https://x"),
        cert: String::from("aGVsbG8="),
    });
    match &flow.step {
        ContextStep::StageCert { cluster } => {
            // the staged bytes are the decoded certificate
            let bytes = kubeconfig_writer::stage_certificate(cluster).unwrap();
            assert_eq!(bytes, b"hello".to_vec());
        }
        _ => panic!("expected the certificate staging step"),
    }
    let flow = flow.step(ContextEvent::StagedOk { path: String::from("/tmp/ca") });
    assert!(matches!(flow.step, ContextStep::WriteCluster { .. }));
    calls.push(flow.command().unwrap());
    let flow = flow.step(ContextEvent::ToolOk);
    assert!(matches!(flow.step, ContextStep::CleanupAfterOk));
    let flow = flow.step(ContextEvent::ToolOk);
    assert!(matches!(flow.step, ContextStep::WriteIdentity));
    calls.push(flow.command().unwrap());
    let flow = flow.step(ContextEvent::ToolOk);
    assert!(matches!(flow.step, ContextStep::WriteContext));
    calls.push(flow.command().unwrap());
    let flow = flow.step(ContextEvent::ToolOk);
    assert!(matches!(flow.step, ContextStep::Done));

    let expected = vec![
        vec!["--profile", "default", "configure", "set", "sso_region", "us-east-1"],
        vec!["--profile", "default", "sso", "login"],
        vec!["--profile", "default", "sts", "get-caller-identity"],
        vec![
            "--profile",
            "default",
            "--region",
            "us-east-1",
            "eks",
            "describe-cluster",
            "--name",
            "foo",
            "--query",
            "cluster.{endpoint:endpoint,cert:certificateAuthority.data}",
        ],
        vec![
            "config",
            "set-cluster",
            "main",
            "--server",
            "https://x",
            "--embed-certs",
            "--certificate-authority",
            "/tmp/ca",
        ],
        vec![
            "config",
            "set-credentials",
            "prod",
            "--exec-command",
            "aws",
            "--exec-api-version",
            "client.authentication.k8s.io/v1alpha1",
            "--exec-arg",
            "--region",
            "--exec-arg",
            "us-east-1",
            "--exec-arg",
            "eks",
            "--exec-arg",
            "get-token",
            "--exec-arg",
            "--cluster-name",
            "--exec-arg",
            "foo",
            "--exec-env",
            "AWS_PROFILE=default",
        ],
        vec![
            "config", "set-context", "prod", "--cluster", "main", "--user", "prod",
            "--namespace", "app",
        ],
    ];
    let expected: Vec<Vec<String>> = expected
        .into_iter()
        .map(|v| v.into_iter().map(String::from).collect())
        .collect();
    assert_eq!(calls, expected);
}

#[test]
fn selector_merge_prefers_the_other_side() {
    let base = Selector {
        application: Some(String::from("web")),
        environment: None,
    };
    let override_with = Selector {
        application: None,
        environment: Some(String::from("production")),
    };
    let merged = base.merge(&override_with);
    assert_eq!(merged.application.as_deref(), Some("web"));
    assert_eq!(merged.environment.as_deref(), Some("production"));

    let both = base.merge(&Selector {
        application: Some(String::from("worker")),
        environment: None,
    });
    assert_eq!(both.application.as_deref(), Some("worker"));
    assert_eq!(both.environment, None);
}

#[test]
fn selector_apply_finds_the_release() {
    let config = sample_config();
    let sel = Selector {
        application: Some(String::from("web")),
        environment: Some(String::from("production")),
    };
    assert_eq!(sel.apply(&config).unwrap().name, "web-prod");

    let sole = Selector { application: None, environment: None };
    assert_eq!(sole.apply(&config).unwrap().name, "web-prod");

    let missing = Selector {
        application: Some(String::from("web")),
        environment: Some(String::from("staging")),
    };
    assert!(missing.apply(&config).is_err());

    let unknown_app = Selector {
        application: Some(String::from("worker")),
        environment: None,
    };
    assert!(unknown_app.apply(&config).is_err());
}

#[test]
fn workload_commands_build_exact_invocations() {
    let config = sample_config();
    let release = &config.releases[0];
    assert_eq!(
        flightctl::commands::aws::run(&config, release, &vec![
            String::from("s3"),
            String::from("ls"),
        ])
        .unwrap(),
        vec!["--profile", "default", "s3", "ls"]
    );
    assert_eq!(
        flightctl::commands::kubectl::run(&config, release, &vec![
            String::from("get"),
            String::from("pods"),
        ])
        .unwrap(),
        vec!["--context", "prod", "get", "pods"]
    );
    assert_eq!(
        flightctl::commands::process::run(&config, release).unwrap(),
        vec!["--context", "prod", "get", "deploy", "--selector", "app=web"]
    );
}

#[test]
fn console_plan_combines_selectors_and_targets_the_container() {
    let config = sample_config();
    let release = &config.releases[0];
    let plan = flightctl::commands::console::run_default(&config, release).unwrap();
    assert_eq!(plan.context, "prod");
    assert_eq!(plan.container, "main");
    assert_eq!(plan.command, vec!["rails", "console"]);
    assert_eq!(
        plan.pod_args,
        vec![
            "--context",
            "prod",
            "get",
            "pod",
            "--selector",
            "app=web,role=console",
            "--field-selector",
            "status.phase=Running",
            "--output",
            "name",
        ]
    );
    assert_eq!(
        flightctl::commands::console::exec_args(&plan, "pod/web-1"),
        vec![
            "--context", "prod", "exec", "--stdin", "--tty", "pod/web-1", "--container",
            "main", "--", "rails", "console",
        ]
    );
}

#[test]
fn console_requires_a_configured_console() {
    let mut config = sample_config();
    config.applications[0].config = ApplicationConfig::Kubectl {
        console: None,
        selector: vec![(String::from("app"), String::from("web"))],
    };
    let err = flightctl::commands::console::run_default(&config, &config.releases[0])
        .unwrap_err();
    assert_eq!(err.message(), "No console configured for application: web");
}
