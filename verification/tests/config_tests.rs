use flightctl::config::{
    Application, ApplicationConfig, ApplicationManifests, Auth, AuthConfig, Cluster,
    ClusterConfig, Config, Context, ManifestConfig, ManifestsProvider, Release,
};
use flightctl::errors::Error;

fn sample_config() -> Config {
    Config {
        api_version: String::from("v1"),
        applications: vec![Application {
            manifests: ApplicationManifests {
                provider: ManifestsProvider::Kustomize,
                repo: String::from("git@example:repo"),
            },
            name: String::from("web"),
            config: ApplicationConfig::Kubectl {
                console: None,
                selector: vec![(String::from("app"), String::from("web"))],
            },
        }],
        auth: vec![
            Auth {
                name: String::from("default"),
                config: AuthConfig::AwsSso {
                    config: vec![(String::from("sso_region"), String::from("us-east-1"))],
                },
            },
            Auth {
                name: String::from("default"),
                config: AuthConfig::AwsSso { config: vec![] },
            },
        ],
        clusters: vec![Cluster {
            name: String::from("main"),
            auth: String::from("default"),
            config: ClusterConfig::Eks {
                name: String::from("foo"),
                region: String::from("us-east-1"),
            },
        }],
        contexts: vec![Context {
            auth: String::from("default"),
            cluster: String::from("main"),
            name: String::from("prod"),
            namespace: String::from("app"),
        }],
        kind: String::from("Workspace"),
        releases: vec![Release {
            application: String::from("web"),
            context: String::from("prod"),
            environment: String::from("production"),
            manifests: ManifestConfig::Kustomize { path: String::from("overlays/prod") },
            name: String::from("web-prod"),
        }],
    }
}

#[test]
fn find_context_resolves_release_reference() {
    let config = sample_config();
    let context = config.find_context(&config.releases[0]).unwrap();
    assert_eq!(context.name, "prod");
    assert_eq!(context.cluster, "main");
}

#[test]
fn find_context_missing_reference_is_config_error() {
    let mut config = sample_config();
    config.releases[0].context = String::from("none-such");
    let err = config.find_context(&config.releases[0]).unwrap_err();
    match err {
        Error::ConfigReference { kind, holder, missing } => {
            assert_eq!(kind, "context");
            assert_eq!(holder, "web-prod");
            assert_eq!(missing, "none-such");
        }
        _ => panic!("expected a configuration reference error"),
    }
}

#[test]
fn find_auth_returns_first_declared_match() {
    let config = sample_config();
    let auth = config.find_auth(&config.contexts[0]).unwrap();
    // two identities share the name; the first declared one wins
    match &auth.config {
        AuthConfig::AwsSso { config: params } => {
            assert_eq!(params.len(), 1);
            assert_eq!(params[0].0, "sso_region");
        }
    }
}

#[test]
fn find_cluster_missing_reference_names_both_sides() {
    let mut config = sample_config();
    config.contexts[0].cluster = String::from("absent");
    let err = config.find_cluster(&config.contexts[0]).unwrap_err();
    match err {
        Error::ConfigReference { kind, holder, missing } => {
            assert_eq!(kind, "cluster");
            assert_eq!(holder, "prod");
            assert_eq!(missing, "absent");
        }
        _ => panic!("expected a configuration reference error"),
    }
}

#[test]
fn find_application_resolves_and_rejects() {
    let mut config = sample_config();
    assert_eq!(config.find_application(&config.releases[0]).unwrap().name, "web");
    config.releases[0].application = String::from("worker");
    let err = config.find_application(&config.releases[0]).unwrap_err();
    match err {
        Error::ConfigReference { kind, holder, missing } => {
            assert_eq!(kind, "application");
            assert_eq!(holder, "web-prod");
            assert_eq!(missing, "worker");
        }
        _ => panic!("expected a configuration reference error"),
    }
}

#[test]
fn error_message_names_the_reference() {
    let err = Error::ConfigReference {
        kind: String::from("cluster"),
        holder: String::from("prod"),
        missing: String::from("none-such"),
    };
    assert_eq!(err.message(), "prod uses cluster none-such, which isn't defined");
}

#[test]
fn view_lists_names_in_order() {
    let config = sample_config();
    assert_eq!(flightctl::commands::view::applications(&config), vec!["web"]);
    assert_eq!(flightctl::commands::view::auth(&config), vec!["default", "default"]);
    assert_eq!(flightctl::commands::view::clusters(&config), vec!["main"]);
    assert_eq!(flightctl::commands::view::contexts(&config), vec!["prod"]);
    assert_eq!(flightctl::commands::view::releases(&config), vec!["web-prod"]);
}
