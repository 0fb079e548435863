use vstd::prelude::*;

use crate::config::Config;

verus! {

/// The declared application names, in declaration order.
pub fn applications(config: &Config) -> (r: Vec<String>)
    ensures
        r@.len() == config.applications@.len(),
        forall|i: int|
            0 <= i < r@.len() ==> (#[trigger] r@[i]@) == config.applications@[i].name@,
{
    let mut r: Vec<String> = Vec::new();
    let mut i: usize = 0;
    while i < config.applications.len()
        invariant
            i <= config.applications@.len(),
            r@.len() == i,
            forall|j: int| 0 <= j < i ==> (#[trigger] r@[j]@) == config.applications@[j].name@,
        decreases config.applications@.len() - i,
    {
        r.push(config.applications[i].name.clone());
        i = i + 1;
    }
    r
}

/// The declared identity names, in declaration order.
pub fn auth(config: &Config) -> (r: Vec<String>)
    ensures
        r@.len() == config.auth@.len(),
        forall|i: int| 0 <= i < r@.len() ==> (#[trigger] r@[i]@) == config.auth@[i].name@,
{
    let mut r: Vec<String> = Vec::new();
    let mut i: usize = 0;
    while i < config.auth.len()
        invariant
            i <= config.auth@.len(),
            r@.len() == i,
            forall|j: int| 0 <= j < i ==> (#[trigger] r@[j]@) == config.auth@[j].name@,
        decreases config.auth@.len() - i,
    {
        r.push(config.auth[i].name.clone());
        i = i + 1;
    }
    r
}

/// The declared cluster names, in declaration order.
pub fn clusters(config: &Config) -> (r: Vec<String>)
    ensures
        r@.len() == config.clusters@.len(),
        forall|i: int| 0 <= i < r@.len() ==> (#[trigger] r@[i]@) == config.clusters@[i].name@,
{
    let mut r: Vec<String> = Vec::new();
    let mut i: usize = 0;
    while i < config.clusters.len()
        invariant
            i <= config.clusters@.len(),
            r@.len() == i,
            forall|j: int| 0 <= j < i ==> (#[trigger] r@[j]@) == config.clusters@[j].name@,
        decreases config.clusters@.len() - i,
    {
        r.push(config.clusters[i].name.clone());
        i = i + 1;
    }
    r
}

/// The declared context names, in declaration order.
pub fn contexts(config: &Config) -> (r: Vec<String>)
    ensures
        r@.len() == config.contexts@.len(),
        forall|i: int| 0 <= i < r@.len() ==> (#[trigger] r@[i]@) == config.contexts@[i].name@,
{
    let mut r: Vec<String> = Vec::new();
    let mut i: usize = 0;
    while i < config.contexts.len()
        invariant
            i <= config.contexts@.len(),
            r@.len() == i,
            forall|j: int| 0 <= j < i ==> (#[trigger] r@[j]@) == config.contexts@[j].name@,
        decreases config.contexts@.len() - i,
    {
        r.push(config.contexts[i].name.clone());
        i = i + 1;
    }
    r
}

/// The declared release names, in declaration order.
pub fn releases(config: &Config) -> (r: Vec<String>)
    ensures
        r@.len() == config.releases@.len(),
        forall|i: int| 0 <= i < r@.len() ==> (#[trigger] r@[i]@) == config.releases@[i].name@,
{
    let mut r: Vec<String> = Vec::new();
    let mut i: usize = 0;
    while i < config.releases.len()
        invariant
            i <= config.releases@.len(),
            r@.len() == i,
            forall|j: int| 0 <= j < i ==> (#[trigger] r@[j]@) == config.releases@[j].name@,
        decreases config.releases@.len() - i,
    {
        r.push(config.releases[i].name.clone());
        i = i + 1;
    }
    r
}

} // verus!
