use flightctl::aws;
use flightctl::kubeclient;
use flightctl::kubeconfig;
use flightctl::kubeconfig_writer;
use flightctl::kubeconfig::{ClusterEntry, EnvEntry, ExecConfig, IdentityEntry};

#[test]
fn cloud_cli_argument_vectors_are_exact() {
    assert_eq!(aws::list_profiles_args(), vec!["configure", "list-profiles"]);
    assert_eq!(
        aws::set_profile_args("default", "sso_region", "us-east-1"),
        vec!["--profile", "default", "configure", "set", "sso_region", "us-east-1"]
    );
    assert_eq!(
        aws::verify_auth("default"),
        vec!["--profile", "default", "sts", "get-caller-identity"]
    );
    assert_eq!(aws::sso_login("default"), vec!["--profile", "default", "sso", "login"]);
    assert_eq!(
        aws::get_eks_cluster_args("default", "us-east-1", "foo"),
        vec![
            "--profile",
            "default",
            "--region",
            "us-east-1",
            "eks",
            "describe-cluster",
            "--name",
            "foo",
            "--query",
            "cluster.{endpoint:endpoint,cert:certificateAuthority.data}",
        ]
    );
}

#[test]
fn create_profile_applies_each_parameter_independently() {
    let params = vec![
        (String::from("sso_start_url"), String::from("https://sso.example")),
        (String::from("sso_region"), String::from("us-east-1")),
    ];
    let calls = aws::create_profile("default", &params);
    assert_eq!(calls.len(), 2);
    assert_eq!(
        calls[0],
        vec!["--profile", "default", "configure", "set", "sso_start_url", "https://sso.example"]
    );
    assert_eq!(
        calls[1],
        vec!["--profile", "default", "configure", "set", "sso_region", "us-east-1"]
    );
}

#[test]
fn write_auth_encodes_the_full_exec_descriptor() {
    let identity = IdentityEntry {
        name: String::from("prod"),
        exec_config: ExecConfig {
            api_version: String::from("client.authentication.k8s.io/v1alpha1"),
            command: String::from("aws"),
            args: vec![
                String::from("--region"),
                String::from("us-east-1"),
                String::from("eks"),
                String::from("get-token"),
                String::from("--cluster-name"),
                String::from("foo"),
            ],
            env: vec![EnvEntry {
                name: String::from("AWS_PROFILE"),
                value: String::from("default"),
            }],
        },
    };
    assert_eq!(
        kubeconfig_writer::write_auth(&identity),
        vec![
            "config",
            "set-credentials",
            "prod",
            "--exec-command",
            "aws",
            "--exec-api-version",
            "client.authentication.k8s.io/v1alpha1",
            "--exec-arg",
            "--region",
            "--exec-arg",
            "us-east-1",
            "--exec-arg",
            "eks",
            "--exec-arg",
            "get-token",
            "--exec-arg",
            "--cluster-name",
            "--exec-arg",
            "foo",
            "--exec-env",
            "AWS_PROFILE=default",
        ]
    );
}

#[test]
fn write_cluster_embeds_the_staged_certificate() {
    let cluster = ClusterEntry {
        name: String::from("main"),
        server: String::from("https://x"),
        certificate_authority_data: String::from("aGVsbG8="),
    };
    assert_eq!(
        kubeconfig_writer::write_cluster(&cluster, "/tmp/ca.crt"),
        vec![
            "config",
            "set-cluster",
            "main",
            "--server",
            "https://x",
            "--embed-certs",
            "--certificate-authority",
            "/tmp/ca.crt",
        ]
    );
}

#[test]
fn write_context_binds_cluster_user_and_namespace() {
    assert_eq!(
        kubeconfig_writer::write_context("prod", "prod", "main", "app"),
        vec![
            "config", "set-context", "prod", "--cluster", "main", "--user", "prod",
            "--namespace", "app",
        ]
    );
    assert_eq!(
        kubeconfig::create_context("prod", "prod", "main", "app"),
        kubeconfig_writer::write_context("prod", "prod", "main", "app")
    );
}

#[test]
fn create_auth_and_cluster_prefix_literal_arguments() {
    let extra = vec![String::from("--token"), String::from("t")];
    assert_eq!(
        kubeconfig::create_auth("alice", &extra),
        vec!["config", "set-credentials", "alice", "--token", "t"]
    );
    assert_eq!(
        kubeconfig::create_cluster("main", &extra),
        vec!["config", "set-cluster", "main", "--token", "t"]
    );
}

#[test]
fn stage_certificate_decodes_base64() {
    let cluster = ClusterEntry {
        name: String::from("main"),
        server: String::from("https://x"),
        certificate_authority_data: String::from("aGVsbG8="),
    };
    let bytes = kubeconfig_writer::stage_certificate(&cluster).unwrap();
    assert_eq!(bytes, b"hello".to_vec());

    let bad = ClusterEntry {
        name: String::from("main"),
        server: String::from("https://x"),
        certificate_authority_data: String::from("!!!not-base64!!!"),
    };
    assert!(kubeconfig_writer::stage_certificate(&bad).is_err());
}

#[test]
fn selector_renders_and_extends() {
    let base = kubeclient::Selector::new(vec![
        (String::from("app"), String::from("web")),
        (String::from("tier"), String::from("front")),
    ]);
    assert_eq!(base.to_string(), "app=web,tier=front");

    let console = kubeclient::Selector::new(vec![
        (String::from("tier"), String::from("console")),
    ]);
    let combined = base.extend(&console);
    // the overridden key keeps only the console's value
    assert_eq!(combined.to_string(), "app=web,tier=console");

    let empty = kubeclient::Selector::new(vec![]);
    assert_eq!(empty.to_string(), "");
}

#[test]
fn client_invocations_carry_the_context() {
    let client = kubeclient::new("prod");
    let sel = kubeclient::Selector::new(vec![(String::from("app"), String::from("web"))]);
    assert_eq!(
        client.get_workloads(sel),
        vec!["--context", "prod", "get", "deploy", "--selector", "app=web"]
    );
    assert_eq!(
        client.run_command(&vec![String::from("get"), String::from("ns")]),
        vec!["--context", "prod", "get", "ns"]
    );
    assert_eq!(
        client.fetch_resource_args("configmap/settings"),
        vec!["--context", "prod", "get", "configmap/settings", "--output", "yaml"]
    );
    let sel = kubeclient::Selector::new(vec![(String::from("app"), String::from("web"))]);
    assert_eq!(
        client.get_available_pod_args(sel),
        vec![
            "--context",
            "prod",
            "get",
            "pod",
            "--selector",
            "app=web",
            "--field-selector",
            "status.phase=Running",
            "--output",
            "name",
        ]
    );
    assert_eq!(
        client.exec_command("pod/web-1", "main", &vec![String::from("sh")]),
        vec![
            "--context", "prod", "exec", "--stdin", "--tty", "pod/web-1", "--container",
            "main", "--", "sh",
        ]
    );
}
