use flightctl::aws::profile_exists;
use flightctl::kubeconfig::{auth_exists, cluster_exists};
use flightctl::kubeclient::first_pod_name;

#[test]
fn profile_listing_matches_whole_lines() {
    let output = "default\nstaging  \nprod\n";
    assert!(profile_exists(output, "default"));
    assert!(profile_exists(output, "staging"));
    assert!(profile_exists(output, "prod"));
    assert!(!profile_exists(output, "stag"));
    assert!(!profile_exists(output, "production"));
}

#[test]
fn profile_listing_without_trailing_newline() {
    assert!(profile_exists("default", "default"));
    assert!(!profile_exists("", "default"));
}

#[test]
fn profile_listing_ignores_trailing_whitespace_only() {
    assert!(profile_exists("  default\r\n", "  default"));
    assert!(!profile_exists("  default\r\n", "default"));
}

#[test]
fn auth_listing_matches_whole_words() {
    let output = "alice bob prod-user\n";
    assert!(auth_exists(output, "alice"));
    assert!(auth_exists(output, "bob"));
    assert!(auth_exists(output, "prod-user"));
    assert!(!auth_exists(output, "prod"));
    assert!(!auth_exists(output, "ali"));
    assert!(!auth_exists(output, ""));
}

#[test]
fn cluster_listing_matches_whole_words() {
    let output = "NAME\nmain\nedge-1\n";
    assert!(cluster_exists(output, "main"));
    assert!(cluster_exists(output, "edge-1"));
    assert!(!cluster_exists(output, "edge"));
}

#[test]
fn first_pod_name_takes_first_word() {
    assert_eq!(
        first_pod_name("pod/web-1 pod/web-2\n"),
        Some(String::from("pod/web-1"))
    );
    assert_eq!(first_pod_name("  \n\t "), None);
    assert_eq!(first_pod_name(""), None);
    assert_eq!(first_pod_name("\nonly-one"), Some(String::from("only-one")));
}
