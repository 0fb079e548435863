//! Credential and context reconciliation for a declaratively configured
//! cloud workspace.
//!
//! Before any workload command runs, the pipeline guarantees that a cloud
//! identity session is usable and that the local cluster-access
//! configuration (cluster registration and context binding) mirrors the
//! declared desired state. The decision logic is verified here; the
//! delegated cloud CLI and local-store processes are driven by an
//! unverified shell around this library, which feeds their outcomes back
//! in as events.

pub mod errors;

pub mod text;

pub mod config;

pub mod aws;

pub mod kubeconfig;

pub mod kubeconfig_writer;

pub mod kubeclient;

pub mod kubeenv;

pub mod authorize;

pub mod context;

pub mod selector;

pub mod commands;
