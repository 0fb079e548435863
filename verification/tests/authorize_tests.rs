use flightctl::authorize::{self, AuthEvent, AuthStep};
use flightctl::config::{
    Auth, AuthConfig, Cluster, ClusterConfig, Config, Context, ManifestConfig, Release,
};
use flightctl::errors::Error;

fn sample_config(params: Vec<(String, String)>) -> Config {
    Config {
        api_version: String::from("v1"),
        applications: vec![],
        auth: vec![Auth {
            name: String::from("default"),
            config: AuthConfig::AwsSso { config: params },
        }],
        clusters: vec![Cluster {
            name: String::from("main"),
            auth: String::from("default"),
            config: ClusterConfig::Eks {
                name: String::from("foo"),
                region: String::from("us-east-1"),
            },
        }],
        contexts: vec![Context {
            auth: String::from("default"),
            cluster: String::from("main"),
            name: String::from("prod"),
            namespace: String::from("app"),
        }],
        kind: String::from("Workspace"),
        releases: vec![Release {
            application: String::from("web"),
            context: String::from("prod"),
            environment: String::from("production"),
            manifests: ManifestConfig::Kustomize { path: String::from("overlays/prod") },
            name: String::from("web-prod"),
        }],
    }
}

fn one_param() -> Vec<(String, String)> {
    vec![(String::from("sso_region"), String::from("us-east-1"))]
}

#[test]
fn existing_profile_skips_creation() {
    let config = sample_config(one_param());
    let mut flow = authorize::run(&config, &config.releases[0]).unwrap();
    assert!(matches!(flow.step, AuthStep::CheckProfile));
    assert_eq!(flow.command().unwrap(), vec!["configure", "list-profiles"]);
    flow.step(AuthEvent::Profiles { output: String::from("default\nother\n") });
    assert!(matches!(flow.step, AuthStep::Verify { after_login: false }));
    flow.step(AuthEvent::VerifyOk);
    assert!(matches!(flow.step, AuthStep::Done));
}

#[test]
fn missing_profile_applies_each_parameter() {
    let mut params = one_param();
    params.push((String::from("sso_start_url"), String::from("https://sso.example")));
    let config = sample_config(params);
    let mut flow = authorize::run(&config, &config.releases[0]).unwrap();
    flow.step(AuthEvent::Profiles { output: String::from("other\n") });
    assert!(matches!(flow.step, AuthStep::CreateParam { idx: 0 }));
    assert_eq!(
        flow.command().unwrap(),
        vec!["--profile", "default", "configure", "set", "sso_region", "us-east-1"]
    );
    flow.step(AuthEvent::ToolOk);
    assert!(matches!(flow.step, AuthStep::CreateParam { idx: 1 }));
    assert_eq!(
        flow.command().unwrap(),
        vec![
            "--profile",
            "default",
            "configure",
            "set",
            "sso_start_url",
            "https://sso.example",
        ]
    );
    flow.step(AuthEvent::ToolOk);
    assert!(matches!(flow.step, AuthStep::Verify { after_login: false }));
}

#[test]
fn partial_profile_creation_failure_is_fatal() {
    let config = sample_config(one_param());
    let mut flow = authorize::run(&config, &config.releases[0]).unwrap();
    flow.step(AuthEvent::Profiles { output: String::from("") });
    assert!(matches!(flow.step, AuthStep::CreateParam { idx: 0 }));
    flow.step(AuthEvent::ToolErr { diag: String::from("exit 1") });
    match &flow.step {
        AuthStep::Failed { error: Error::ExternalTool { diag } } => assert_eq!(diag, "exit 1"),
        _ => panic!("expected a delegated-tool failure"),
    }
}

#[test]
fn bounded_login_retry_performs_exactly_one_login() {
    let config = sample_config(one_param());
    let mut flow = authorize::run(&config, &config.releases[0]).unwrap();
    flow.step(AuthEvent::Profiles { output: String::from("default\n") });
    let mut logins = 0;
    // first verification fails, then the single login runs, then the
    // second verification fails: the flow must end in a terminal
    // authorization error without a second login.
    flow.step(AuthEvent::VerifyErr);
    if matches!(flow.step, AuthStep::Login) {
        logins += 1;
        assert_eq!(flow.command().unwrap(), vec!["--profile", "default", "sso", "login"]);
    }
    flow.step(AuthEvent::ToolOk);
    assert!(matches!(flow.step, AuthStep::Verify { after_login: true }));
    flow.step(AuthEvent::VerifyErr);
    match &flow.step {
        AuthStep::Failed { error: Error::AuthVerification { profile } } => {
            assert_eq!(profile, "default");
        }
        _ => panic!("expected a terminal authorization error"),
    }
    assert_eq!(logins, 1);
    // terminal steps absorb every further event: still no second login
    flow.step(AuthEvent::VerifyErr);
    flow.step(AuthEvent::ToolOk);
    assert!(matches!(flow.step, AuthStep::Failed { .. }));
    assert!(flow.command().is_none());
}

#[test]
fn login_then_successful_verification_completes() {
    let config = sample_config(one_param());
    let mut flow = authorize::run(&config, &config.releases[0]).unwrap();
    flow.step(AuthEvent::Profiles { output: String::from("default\n") });
    flow.step(AuthEvent::VerifyErr);
    assert!(matches!(flow.step, AuthStep::Login));
    flow.step(AuthEvent::ToolOk);
    flow.step(AuthEvent::VerifyOk);
    assert!(matches!(flow.step, AuthStep::Done));
}

#[test]
fn dangling_auth_reference_fails_before_any_call() {
    let mut config = sample_config(one_param());
    config.contexts[0].auth = String::from("nobody");
    let err = authorize::run(&config, &config.releases[0]).unwrap_err();
    match err {
        Error::ConfigReference { kind, holder, missing } => {
            assert_eq!(kind, "auth");
            assert_eq!(holder, "prod");
            assert_eq!(missing, "nobody");
        }
        _ => panic!("expected a configuration reference error"),
    }
}
