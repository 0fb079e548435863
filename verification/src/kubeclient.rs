use vstd::prelude::*;

use crate::text;

verus! {

/// A handle on the delegated cluster client, pinned to one named context
/// binding: every invocation it builds runs under that context.
#[derive(Debug)]
pub struct KubeClient {
    pub context: String,
}

/// Opens a handle for the named context.
pub fn new(context: &str) -> (r: KubeClient)
    ensures
        r.context@ == context@,
{
    KubeClient { context: context.to_owned() }
}

/// A label selector: ordered key/value requirements on workloads.
#[derive(Debug)]
pub struct Selector {
    pub labels: Vec<(String, String)>,
}

/// The label list holds an entry under the key `k`.
pub open spec fn has_label_key(s: Seq<(String, String)>, k: Seq<char>) -> bool {
    exists|i: int| 0 <= i < s.len() && (#[trigger] s[i]).0@ == k
}

/// The entries of `s` whose keys `o` does not override, in order.
pub open spec fn retained_labels(s: Seq<(String, String)>, o: Seq<(String, String)>) -> Seq<
    (String, String),
>
    decreases s.len(),
{
    if s.len() == 0 {
        Seq::empty()
    } else {
        let rest = retained_labels(s.drop_last(), o);
        if has_label_key(o, s.last().0@) {
            rest
        } else {
            rest.push(s.last())
        }
    }
}

/// The selector string: the `key=value` requirements joined with commas.
pub open spec fn selector_string(s: Seq<(String, String)>) -> Seq<char>
    decreases s.len(),
{
    if s.len() == 0 {
        Seq::empty()
    } else if s.len() == 1 {
        s[0].0@ + "="@ + s[0].1@
    } else {
        selector_string(s.drop_last()) + ","@ + s.last().0@ + "="@ + s.last().1@
    }
}

fn contains_key(labels: &Vec<(String, String)>, k: &String) -> (r: bool)
    ensures
        r == has_label_key(labels@, k@),
{
    let mut i: usize = 0;
    while i < labels.len()
        invariant
            i <= labels@.len(),
            forall|j: int| 0 <= j < i ==> (#[trigger] labels@[j]).0@ != k@,
        decreases labels@.len() - i,
    {
        if labels[i].0 == *k {
            return true;
        }
        i = i + 1;
    }
    false
}

impl Selector {
    /// Wraps a list of label requirements.
    pub fn new(labels: Vec<(String, String)>) -> (r: Selector)
        ensures
            r.labels@ == labels@,
    {
        Selector { labels }
    }

    /// Combines two selectors: entries of `self` keep their place unless
    /// `other` carries the same key, and the entries of `other` follow.
    pub fn extend(&self, other: &Selector) -> (r: Selector)
        ensures
            r.labels@ == retained_labels(self.labels@, other.labels@) + other.labels@,
    {
        let mut out: Vec<(String, String)> = Vec::new();
        let mut i: usize = 0;
        while i < self.labels.len()
            invariant
                i <= self.labels@.len(),
                out@ == retained_labels(self.labels@.subrange(0, i as int), other.labels@),
            decreases self.labels@.len() - i,
        {
            proof {
                assert(self.labels@.subrange(0, i + 1).drop_last() =~= self.labels@.subrange(
                    0,
                    i as int,
                ));
                assert(self.labels@.subrange(0, i + 1).last() == self.labels@[i as int]);
            }
            let (k, v) = &self.labels[i];
            if !contains_key(&other.labels, k) {
                out.push((k.clone(), v.clone()));
            }
            i = i + 1;
        }
        proof {
            assert(self.labels@.subrange(0, self.labels@.len() as int) =~= self.labels@);
        }
        let mut j: usize = 0;
        while j < other.labels.len()
            invariant
                j <= other.labels@.len(),
                out@ == retained_labels(self.labels@, other.labels@) + other.labels@.subrange(
                    0,
                    j as int,
                ),
            decreases other.labels@.len() - j,
        {
            let (k, v) = &other.labels[j];
            out.push((k.clone(), v.clone()));
            proof {
                assert(out@ =~= retained_labels(self.labels@, other.labels@)
                    + other.labels@.subrange(0, j + 1));
            }
            j = j + 1;
        }
        proof {
            assert(other.labels@.subrange(0, other.labels@.len() as int) =~= other.labels@);
        }
        Selector { labels: out }
    }

    /// Renders the selector for the delegated command line, as
    /// [`selector_string`] describes.
    pub fn to_string(&self) -> (r: String)
        ensures
            r@ == selector_string(self.labels@),
    {
        let mut r = String::new();
        let mut i: usize = 0;
        while i < self.labels.len()
            invariant
                i <= self.labels@.len(),
                r@ == selector_string(self.labels@.subrange(0, i as int)),
            decreases self.labels@.len() - i,
        {
            proof {
                assert(self.labels@.subrange(0, i + 1).drop_last() =~= self.labels@.subrange(
                    0,
                    i as int,
                ));
                assert(self.labels@.subrange(0, i + 1).last() == self.labels@[i as int]);
                assert(self.labels@.subrange(0, i + 1)[0] == self.labels@[0]);
            }
            if i > 0 {
                r.append(",");
            }
            r.append(self.labels[i].0.as_str());
            r.append("=");
            r.append(self.labels[i].1.as_str());
            i = i + 1;
        }
        proof {
            assert(self.labels@.subrange(0, self.labels@.len() as int) =~= self.labels@);
        }
        r
    }
}

/// The argument vector that queries the first running pod a selector
/// picks, under a context, reporting names only.
pub open spec fn is_pod_query_args(r: Seq<String>, ctx: Seq<char>, sel: Seq<char>) -> bool {
    &&& r.len() == 10
    &&& r[0]@ == "--context"@
    &&& r[1]@ == ctx
    &&& r[2]@ == "get"@
    &&& r[3]@ == "pod"@
    &&& r[4]@ == "--selector"@
    &&& r[5]@ == sel
    &&& r[6]@ == "--field-selector"@
    &&& r[7]@ == "status.phase=Running"@
    &&& r[8]@ == "--output"@
    &&& r[9]@ == "name"@
}

/// The argument vector that runs a command inside a pod's container
/// under a context, with an interactive terminal attached.
pub open spec fn is_exec_args(
    r: Seq<String>,
    ctx: Seq<char>,
    pod: Seq<char>,
    container: Seq<char>,
    cmd: Seq<String>,
) -> bool {
    &&& r.len() == 9 + cmd.len()
    &&& r[0]@ == "--context"@
    &&& r[1]@ == ctx
    &&& r[2]@ == "exec"@
    &&& r[3]@ == "--stdin"@
    &&& r[4]@ == "--tty"@
    &&& r[5]@ == pod
    &&& r[6]@ == "--container"@
    &&& r[7]@ == container
    &&& r[8]@ == "--"@
    &&& forall|i: int| 0 <= i < cmd.len() ==> (#[trigger] r[9 + i]@) == cmd[i]@
}

impl KubeClient {
    /// The invocation that lists the workloads the selector picks.
    pub fn get_workloads(&self, selector: Selector) -> (r: Vec<String>)
        ensures
            r@.len() == 6,
            r@[0]@ == "--context"@,
            r@[1]@ == self.context@,
            r@[2]@ == "get"@,
            r@[3]@ == "deploy"@,
            r@[4]@ == "--selector"@,
            r@[5]@ == selector_string(selector.labels@),
    {
        let mut r: Vec<String> = Vec::new();
        r.push(String::from_str("--context"));
        r.push(self.context.clone());
        r.push(String::from_str("get"));
        r.push(String::from_str("deploy"));
        r.push(String::from_str("--selector"));
        r.push(selector.to_string());
        r
    }

    /// The invocation that runs a literal command under this context.
    pub fn run_command(&self, command: &Vec<String>) -> (r: Vec<String>)
        ensures
            r@.len() == 2 + command@.len(),
            r@[0]@ == "--context"@,
            r@[1]@ == self.context@,
            forall|i: int| 0 <= i < command@.len() ==> (#[trigger] r@[2 + i]@) == command@[i]@,
    {
        let mut r: Vec<String> = Vec::new();
        r.push(String::from_str("--context"));
        r.push(self.context.clone());
        let mut i: usize = 0;
        while i < command.len()
            invariant
                i <= command@.len(),
                r@.len() == 2 + i,
                r@[0]@ == "--context"@,
                r@[1]@ == self.context@,
                forall|j: int| 0 <= j < i ==> (#[trigger] r@[2 + j]@) == command@[j]@,
            decreases command@.len() - i,
        {
            r.push(command[i].clone());
            i = i + 1;
        }
        r
    }

    /// The invocation that queries the first running pod the selector
    /// picks, reporting names only.
    pub fn get_available_pod_args(&self, selector: Selector) -> (r: Vec<String>)
        ensures
            is_pod_query_args(r@, self.context@, selector_string(selector.labels@)),
    {
        let mut r: Vec<String> = Vec::new();
        r.push(String::from_str("--context"));
        r.push(self.context.clone());
        r.push(String::from_str("get"));
        r.push(String::from_str("pod"));
        r.push(String::from_str("--selector"));
        r.push(selector.to_string());
        r.push(String::from_str("--field-selector"));
        r.push(String::from_str("status.phase=Running"));
        r.push(String::from_str("--output"));
        r.push(String::from_str("name"));
        r
    }

    /// The invocation that fetches one named resource for parsing.
    pub fn fetch_resource_args(&self, resource: &str) -> (r: Vec<String>)
        ensures
            r@.len() == 6,
            r@[0]@ == "--context"@,
            r@[1]@ == self.context@,
            r@[2]@ == "get"@,
            r@[3]@ == resource@,
            r@[4]@ == "--output"@,
            r@[5]@ == "yaml"@,
    {
        let mut r: Vec<String> = Vec::new();
        r.push(String::from_str("--context"));
        r.push(self.context.clone());
        r.push(String::from_str("get"));
        r.push(resource.to_owned());
        r.push(String::from_str("--output"));
        r.push(String::from_str("yaml"));
        r
    }

    /// The invocation that runs a command inside a pod's container, with
    /// an interactive terminal attached.
    pub fn exec_command(&self, pod_name: &str, container: &str, command: &Vec<String>) -> (r: Vec<
        String,
    >)
        ensures
            r@.len() == 9 + command@.len(),
            r@[0]@ == "--context"@,
            r@[1]@ == self.context@,
            r@[2]@ == "exec"@,
            r@[3]@ == "--stdin"@,
            r@[4]@ == "--tty"@,
            r@[5]@ == pod_name@,
            r@[6]@ == "--container"@,
            r@[7]@ == container@,
            r@[8]@ == "--"@,
            forall|i: int| 0 <= i < command@.len() ==> (#[trigger] r@[9 + i]@) == command@[i]@,
    {
        let mut r: Vec<String> = Vec::new();
        r.push(String::from_str("--context"));
        r.push(self.context.clone());
        r.push(String::from_str("exec"));
        r.push(String::from_str("--stdin"));
        r.push(String::from_str("--tty"));
        r.push(pod_name.to_owned());
        r.push(String::from_str("--container"));
        r.push(container.to_owned());
        r.push(String::from_str("--"));
        let mut i: usize = 0;
        while i < command.len()
            invariant
                i <= command@.len(),
                r@.len() == 9 + i,
                r@[0]@ == "--context"@,
                r@[1]@ == self.context@,
                r@[2]@ == "exec"@,
                r@[3]@ == "--stdin"@,
                r@[4]@ == "--tty"@,
                r@[5]@ == pod_name@,
                r@[6]@ == "--container"@,
                r@[7]@ == container@,
                r@[8]@ == "--"@,
                forall|j: int| 0 <= j < i ==> (#[trigger] r@[9 + j]@) == command@[j]@,
            decreases command@.len() - i,
        {
            r.push(command[i].clone());
            i = i + 1;
        }
        r
    }
}

/// The first pod name in a names-only listing: its first
/// whitespace-separated word, if the listing names any pod at all.
pub fn first_pod_name(output: &str) -> (r: Option<String>)
    ensures
        r matches Some(t) ==> exists|a: int, b: int|
            text::first_token_at(output@, a, b) && t@ == output@.subrange(a, b),
        r is None ==> forall|k: int|
            0 <= k < output@.len() ==> text::is_space(#[trigger] output@[k]),
{
    text::first_token(output)
}

} // verus!
