//! Pass-through workload commands: once a release's context is
//! reconciled, these build the literal delegated invocations that run
//! the operator's commands against it.

pub mod aws;

pub mod console;

pub mod kubectl;

pub mod process;

pub mod view;
