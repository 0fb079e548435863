use vstd::prelude::*;

verus! {

/// A reference to one key of a named config map or secret, as a
/// container's environment declares it.
#[derive(Debug)]
pub struct KeyRef {
    pub name: Option<String>,
    pub key: String,
}

/// Where an environment variable without a literal value takes its value
/// from. A source that is neither a config-map key nor a field path
/// (both options empty) resolves to an unset pod value.
#[derive(Debug)]
pub struct EnvVarSource {
    pub config_map_key_ref: Option<KeyRef>,
    pub field_ref: Option<String>,
}

/// One environment variable of a container: a literal value, a
/// reference, or nothing.
#[derive(Debug)]
pub struct EnvVar {
    pub name: String,
    pub value: Option<String>,
    pub value_from: Option<EnvVarSource>,
}

/// A whole config map or secret imported into a container's
/// environment. A source naming neither imports nothing.
#[derive(Debug)]
pub struct EnvFromSource {
    pub config_map: Option<String>,
    pub secret: Option<String>,
}

/// The parts of a container that environment resolution reads.
#[derive(Debug)]
pub struct Container {
    pub name: String,
    pub env: Vec<EnvVar>,
    pub env_from: Vec<EnvFromSource>,
}

/// One resolved environment variable.
#[derive(Debug)]
pub struct ResolvedVar {
    pub name: String,
    pub value: ResolvedValue,
}

/// Where a resolved variable's value came from. Secret values are never
/// carried, only named.
#[derive(Debug)]
pub enum ResolvedValue {
    Pod { value: Option<String> },
    ConfigMapKeyRef { config_map: String, key: String, value: Option<String> },
    SecretKeyRef { secret: String, key: String },
    FieldRef { path: String },
}

/// Resolves container environments against config maps and secrets that
/// were fetched ahead of time: the driver collects the referenced
/// resources (see [`Container::config_map_refs`] and
/// [`Container::secret_refs`]) and hands their contents in as plain
/// key/value lists.
#[derive(Debug)]
pub struct Resolver {
    pub config_maps: Vec<(String, Vec<(String, String)>)>,
    pub secrets: Vec<(String, Vec<(String, String)>)>,
}

/// An optional value is present and reads as `w`.
pub open spec fn carries(v: Option<String>, w: Seq<char>) -> bool {
    v matches Some(s) && s@ == w
}

/// The variable's value source names the config map `n`.
pub open spec fn env_names_config_map(v: EnvVar, n: Seq<char>) -> bool {
    v.value_from matches Some(src) && src.config_map_key_ref matches Some(kr)
        && kr.name matches Some(nm) && nm@ == n
}

/// The import source names the config map `n`.
pub open spec fn from_names_config_map(s: EnvFromSource, n: Seq<char>) -> bool {
    s.config_map matches Some(nm) && nm@ == n
}

/// The import source names the secret `n`.
pub open spec fn from_names_secret(s: EnvFromSource, n: Seq<char>) -> bool {
    s.secret matches Some(nm) && nm@ == n
}

/// `i` is the position of the first fetched resource under `name`.
pub open spec fn map_index(
    maps: Seq<(String, Vec<(String, String)>)>,
    name: Seq<char>,
    i: int,
) -> bool {
    &&& 0 <= i < maps.len()
    &&& maps[i].0@ == name
    &&& forall|j: int| 0 <= j < i ==> (#[trigger] maps[j]).0@ != name
}

/// The entries of the first fetched resource under `name`, or nothing
/// when none was fetched.
pub open spec fn map_entries(
    maps: Seq<(String, Vec<(String, String)>)>,
    name: Seq<char>,
) -> Seq<(String, String)> {
    if exists|i: int| map_index(maps, name, i) {
        maps[choose|i: int| map_index(maps, name, i)].1@
    } else {
        Seq::empty()
    }
}

/// `j` is the position of the first entry under `key`.
pub open spec fn pair_index(pairs: Seq<(String, String)>, key: Seq<char>, j: int) -> bool {
    &&& 0 <= j < pairs.len()
    &&& pairs[j].0@ == key
    &&& forall|k: int| 0 <= k < j ==> (#[trigger] pairs[k]).0@ != key
}

/// The value of the first entry under `key`, if the list has one.
pub open spec fn entry_value(pairs: Seq<(String, String)>, key: Seq<char>) -> Option<Seq<char>> {
    if exists|j: int| pair_index(pairs, key, j) {
        Some(pairs[choose|j: int| pair_index(pairs, key, j)].1@)
    } else {
        None
    }
}

/// An optional resolved value reads as an optional expected value.
pub open spec fn opt_matches(v: Option<String>, e: Option<Seq<char>>) -> bool {
    match v {
        Some(s) => e matches Some(w) && s@ == w,
        None => e is None,
    }
}

/// How one declared environment variable resolves: a literal value stays
/// a pod value; a config-map reference carries the looked-up value, with
/// the placeholder name `null` when the reference names no config map; a
/// field reference keeps its path; anything else is an unset pod value.
pub open spec fn var_resolves(res: Resolver, v: EnvVar, rv: ResolvedVar) -> bool {
    &&& rv.name@ == v.name@
    &&& match v.value {
        Some(val) => rv.value matches ResolvedValue::Pod { value } && value matches Some(pv)
            && pv@ == val@,
        None => match v.value_from {
            Some(src) => source_resolves(res, src, rv.value),
            None => rv.value matches ResolvedValue::Pod { value } && value is None,
        },
    }
}

/// How a value source resolves, as [`var_resolves`] describes.
pub open spec fn source_resolves(res: Resolver, src: EnvVarSource, val: ResolvedValue) -> bool {
    match src.config_map_key_ref {
        Some(kr) => match kr.name {
            Some(n) => val matches ResolvedValue::ConfigMapKeyRef { config_map, key, value }
                && config_map@ == n@ && key@ == kr.key@ && opt_matches(
                value,
                entry_value(map_entries(res.config_maps@, n@), kr.key@),
            ),
            None => val matches ResolvedValue::ConfigMapKeyRef { config_map, key, value }
                && config_map@ == "null"@ && key@ == kr.key@ && value is None,
        },
        None => match src.field_ref {
            Some(p) => val matches ResolvedValue::FieldRef { path } && path@ == p@,
            None => val matches ResolvedValue::Pod { value } && value is None,
        },
    }
}

/// The block of variables one import source contributes: every entry of
/// the referenced config map with its value, or every key of the
/// referenced secret with its value withheld, or nothing.
pub open spec fn source_block(res: Resolver, src: EnvFromSource, blk: Seq<ResolvedVar>) -> bool {
    match src.config_map {
        Some(n) => {
            let entries = map_entries(res.config_maps@, n@);
            &&& blk.len() == entries.len()
            &&& forall|t: int|
                0 <= t < entries.len() ==> {
                    &&& (#[trigger] blk[t]).name@ == entries[t].0@
                    &&& blk[t].value matches ResolvedValue::ConfigMapKeyRef {
                        config_map,
                        key,
                        value,
                    } && config_map@ == n@ && key@ == entries[t].0@ && carries(
                        value,
                        entries[t].1@,
                    )
                }
        },
        None => match src.secret {
            Some(n) => {
                let entries = map_entries(res.secrets@, n@);
                &&& blk.len() == entries.len()
                &&& forall|t: int|
                    0 <= t < entries.len() ==> {
                        &&& (#[trigger] blk[t]).name@ == entries[t].0@
                        &&& blk[t].value matches ResolvedValue::SecretKeyRef { secret, key }
                            && secret@ == n@ && key@ == entries[t].0@
                    }
            },
            None => blk.len() == 0,
        },
    }
}

/// The blocks of the import sources follow one another in declaration
/// order.
pub open spec fn from_resolves(
    res: Resolver,
    sources: Seq<EnvFromSource>,
    out: Seq<ResolvedVar>,
) -> bool
    decreases sources.len(),
{
    if sources.len() == 0 {
        out.len() == 0
    } else {
        exists|m: int|
            0 <= m <= out.len() && #[trigger] source_block(res, sources[0], out.subrange(0, m))
                && from_resolves(res, sources.skip(1), out.subrange(m, out.len() as int))
    }
}

/// Appending one more source's block keeps the blocks aligned.
proof fn lemma_from_resolves_push(
    res: Resolver,
    sources: Seq<EnvFromSource>,
    out: Seq<ResolvedVar>,
    src: EnvFromSource,
    blk: Seq<ResolvedVar>,
)
    requires
        from_resolves(res, sources, out),
        source_block(res, src, blk),
    ensures
        from_resolves(res, sources.push(src), out + blk),
    decreases sources.len(),
{
    if sources.len() == 0 {
        assert(out.len() == 0);
        let all = out + blk;
        assert(all =~= blk);
        assert(sources.push(src)[0] == src);
        assert(all.subrange(0, blk.len() as int) =~= blk);
        assert(all.subrange(blk.len() as int, all.len() as int) =~= Seq::<ResolvedVar>::empty());
        assert(sources.push(src).skip(1) =~= Seq::<EnvFromSource>::empty());
        assert(from_resolves(res, sources.push(src).skip(1), all.subrange(
            blk.len() as int,
            all.len() as int,
        )));
    } else {
        let m = choose|m: int|
            0 <= m <= out.len() && #[trigger] source_block(res, sources[0], out.subrange(0, m))
                && from_resolves(res, sources.skip(1), out.subrange(m, out.len() as int));
        lemma_from_resolves_push(
            res,
            sources.skip(1),
            out.subrange(m, out.len() as int),
            src,
            blk,
        );
        let all = out + blk;
        assert(all.subrange(0, m) =~= out.subrange(0, m));
        assert(all.subrange(m, all.len() as int) =~= out.subrange(m, out.len() as int) + blk);
        assert(sources.push(src)[0] == sources[0]);
        assert(sources.push(src).skip(1) =~= sources.skip(1).push(src));
        assert(source_block(res, sources.push(src)[0], all.subrange(0, m)));
        assert(from_resolves(res, sources.push(src).skip(1), all.subrange(m, all.len() as int)));
    }
}

fn find_map<'a>(
    maps: &'a Vec<(String, Vec<(String, String)>)>,
    name: &String,
) -> (r: Option<&'a Vec<(String, String)>>)
    ensures
        r matches Some(m) ==> map_entries(maps@, name@) == m@ && exists|i: int| map_index(
            maps@,
            name@,
            i,
        ),
        r is None ==> map_entries(maps@, name@) == Seq::<(String, String)>::empty() && forall|
            i: int,
        | 0 <= i < maps@.len() ==> (#[trigger] maps@[i]).0@ != name@,
{
    let mut i: usize = 0;
    while i < maps.len()
        invariant
            i <= maps@.len(),
            forall|j: int| 0 <= j < i ==> (#[trigger] maps@[j]).0@ != name@,
        decreases maps@.len() - i,
    {
        if maps[i].0 == *name {
            proof {
                assert(map_index(maps@, name@, i as int));
                let w = choose|k: int| map_index(maps@, name@, k);
                assert(w == i as int) by {
                    if w < i {
                        assert(maps@[w].0@ != name@);
                    } else if w > i {
                        assert(maps@[i as int].0@ != name@);
                    }
                }
            }
            return Some(&maps[i].1);
        }
        i = i + 1;
    }
    None
}

fn find_pair<'a>(pairs: &'a Vec<(String, String)>, key: &String) -> (r: Option<&'a String>)
    ensures
        r matches Some(v) ==> entry_value(pairs@, key@) matches Some(w) && v@ == w,
        r is None ==> entry_value(pairs@, key@) is None,
{
    let mut j: usize = 0;
    while j < pairs.len()
        invariant
            j <= pairs@.len(),
            forall|k: int| 0 <= k < j ==> (#[trigger] pairs@[k]).0@ != key@,
        decreases pairs@.len() - j,
    {
        if pairs[j].0 == *key {
            proof {
                assert(pair_index(pairs@, key@, j as int));
                let w = choose|k: int| pair_index(pairs@, key@, k);
                assert(w == j as int) by {
                    if w < j {
                        assert(pairs@[w].0@ != key@);
                    } else if w > j {
                        assert(pairs@[j as int].0@ != key@);
                    }
                }
            }
            return Some(&pairs[j].1);
        }
        j = j + 1;
    }
    None
}

/// Opens a resolver over resources that were fetched ahead of time.
pub fn new(
    config_maps: Vec<(String, Vec<(String, String)>)>,
    secrets: Vec<(String, Vec<(String, String)>)>,
) -> (r: Resolver)
    ensures
        r.config_maps@ == config_maps@,
        r.secrets@ == secrets@,
{
    Resolver { config_maps, secrets }
}

impl Resolver {
    /// Looks one key up in a fetched config map: the first entry under
    /// the key of the first resource under the name.
    pub fn lookup_config_map_key(&self, name: &String, key: &String) -> (r: Option<String>)
        ensures
            opt_matches(r, entry_value(map_entries(self.config_maps@, name@), key@)),
    {
        match find_map(&self.config_maps, name) {
            Some(pairs) => match find_pair(pairs, key) {
                Some(v) => Some(v.clone()),
                None => None,
            },
            None => None,
        }
    }

    /// Resolves one config-map key reference into a carried value.
    pub fn reference_config_map_key(&self, name: &String, key: &String) -> (r: ResolvedValue)
        ensures
            r matches ResolvedValue::ConfigMapKeyRef { config_map, key: k, value }
                && config_map@ == name@ && k@ == key@ && opt_matches(
                value,
                entry_value(map_entries(self.config_maps@, name@), key@),
            ),
    {
        ResolvedValue::ConfigMapKeyRef {
            config_map: name.clone(),
            key: key.clone(),
            value: self.lookup_config_map_key(name, key),
        }
    }

    /// Imports every entry of a fetched config map, values carried.
    pub fn import_config_map(&self, name: &String) -> (r: Vec<ResolvedVar>)
        ensures
            source_block(
                *self,
                EnvFromSource { config_map: Some(*name), secret: None },
                r@,
            ),
    {
        let mut r: Vec<ResolvedVar> = Vec::new();
        match find_map(&self.config_maps, name) {
            Some(pairs) => {
                let mut t: usize = 0;
                while t < pairs.len()
                    invariant
                        t <= pairs@.len(),
                        r@.len() == t,
                        forall|u: int|
                            0 <= u < t ==> {
                                &&& (#[trigger] r@[u]).name@ == pairs@[u].0@
                                &&& r@[u].value matches ResolvedValue::ConfigMapKeyRef {
                                    config_map,
                                    key,
                                    value,
                                } && config_map@ == name@ && key@ == pairs@[u].0@ && carries(
                                    value,
                                    pairs@[u].1@,
                                )
                            },
                    decreases pairs@.len() - t,
                {
                    let (key, value) = &pairs[t];
                    r.push(
                        ResolvedVar {
                            name: key.clone(),
                            value: ResolvedValue::ConfigMapKeyRef {
                                config_map: name.clone(),
                                key: key.clone(),
                                value: Some(value.clone()),
                            },
                        },
                    );
                    t = t + 1;
                }
                r
            },
            None => r,
        }
    }

    /// Imports every key of a fetched secret, values withheld.
    pub fn import_secret(&self, name: &String) -> (r: Vec<ResolvedVar>)
        ensures
            source_block(
                *self,
                EnvFromSource { config_map: None, secret: Some(*name) },
                r@,
            ),
    {
        let mut r: Vec<ResolvedVar> = Vec::new();
        match find_map(&self.secrets, name) {
            Some(pairs) => {
                let mut t: usize = 0;
                while t < pairs.len()
                    invariant
                        t <= pairs@.len(),
                        r@.len() == t,
                        forall|u: int|
                            0 <= u < t ==> {
                                &&& (#[trigger] r@[u]).name@ == pairs@[u].0@
                                &&& r@[u].value matches ResolvedValue::SecretKeyRef {
                                    secret,
                                    key,
                                } && secret@ == name@ && key@ == pairs@[u].0@
                            },
                    decreases pairs@.len() - t,
                {
                    let (key, _) = &pairs[t];
                    r.push(
                        ResolvedVar {
                            name: key.clone(),
                            value: ResolvedValue::SecretKeyRef {
                                secret: name.clone(),
                                key: key.clone(),
                            },
                        },
                    );
                    t = t + 1;
                }
                r
            },
            None => r,
        }
    }

    fn env_from_value(&self, source: &EnvVarSource) -> (r: ResolvedValue)
        ensures
            source_resolves(*self, *source, r),
    {
        match &source.config_map_key_ref {
            Some(kr) => match &kr.name {
                Some(n) => self.reference_config_map_key(n, &kr.key),
                None => ResolvedValue::ConfigMapKeyRef {
                    config_map: String::from_str("null"),
                    key: kr.key.clone(),
                    value: None,
                },
            },
            None => match &source.field_ref {
                Some(p) => ResolvedValue::FieldRef { path: p.clone() },
                None => ResolvedValue::Pod { value: None },
            },
        }
    }

    /// Resolves a container's whole environment: every declared variable
    /// in order, followed by the imported blocks in order. The caller
    /// orders the result for display.
    pub fn resolve(&self, container: &Container) -> (r: Vec<ResolvedVar>)
        ensures
            r@.len() >= container.env@.len(),
            forall|i: int|
                0 <= i < container.env@.len() ==> var_resolves(
                    *self,
                    container.env@[i],
                    #[trigger] r@[i],
                ),
            from_resolves(
                *self,
                container.env_from@,
                r@.skip(container.env@.len() as int),
            ),
    {
        let mut r: Vec<ResolvedVar> = Vec::new();
        let mut i: usize = 0;
        while i < container.env.len()
            invariant
                i <= container.env@.len(),
                r@.len() == i,
                forall|j: int|
                    0 <= j < i ==> var_resolves(*self, container.env@[j], #[trigger] r@[j]),
            decreases container.env@.len() - i,
        {
            let v = &container.env[i];
            let value = match (&v.value, &v.value_from) {
                (Some(val), _) => ResolvedValue::Pod { value: Some(val.clone()) },
                (None, Some(src)) => self.env_from_value(src),
                (None, None) => ResolvedValue::Pod { value: None },
            };
            r.push(ResolvedVar { name: v.name.clone(), value });
            i = i + 1;
        }
        let ghost env_len = container.env@.len() as int;
        let mut k: usize = 0;
        while k < container.env_from.len()
            invariant
                k <= container.env_from@.len(),
                env_len == container.env@.len(),
                r@.len() >= env_len,
                forall|j: int|
                    0 <= j < env_len ==> var_resolves(
                        *self,
                        container.env@[j],
                        #[trigger] r@[j],
                    ),
                from_resolves(
                    *self,
                    container.env_from@.subrange(0, k as int),
                    r@.skip(env_len),
                ),
            decreases container.env_from@.len() - k,
        {
            let ghost r0 = r@;
            let source = &container.env_from[k];
            let mut block: Vec<ResolvedVar> = match (&source.config_map, &source.secret) {
                (Some(n), _) => self.import_config_map(n),
                (None, Some(n)) => self.import_secret(n),
                (None, None) => Vec::new(),
            };
            let ghost blk = block@;
            proof {
                assert(source_block(*self, container.env_from@[k as int], blk));
            }
            r.append(&mut block);
            proof {
                assert(r@ =~= r0 + blk);
                assert(r@.skip(env_len) =~= r0.skip(env_len) + blk);
                lemma_from_resolves_push(
                    *self,
                    container.env_from@.subrange(0, k as int),
                    r0.skip(env_len),
                    container.env_from@[k as int],
                    blk,
                );
                assert(container.env_from@.subrange(0, k as int).push(
                    container.env_from@[k as int],
                ) =~= container.env_from@.subrange(0, k + 1));
                assert(forall|j: int|
                    0 <= j < env_len ==> var_resolves(
                        *self,
                        container.env@[j],
                        #[trigger] r@[j],
                    ));
            }
            k = k + 1;
        }
        proof {
            assert(container.env_from@.subrange(0, container.env_from@.len() as int)
                =~= container.env_from@);
        }
        r
    }
}

/// `name` is a config map the container's environment references,
/// through a keyed value or a whole import.
pub open spec fn config_map_referenced(c: Container, name: Seq<char>) -> bool {
    ||| exists|j: int|
        0 <= j < c.env@.len() && env_names_config_map(#[trigger] c.env@[j], name)
    ||| exists|j: int|
        0 <= j < c.env_from@.len() && from_names_config_map(#[trigger] c.env_from@[j], name)
}

/// `name` is a secret the container's environment imports.
pub open spec fn secret_referenced(c: Container, name: Seq<char>) -> bool {
    exists|j: int|
        0 <= j < c.env_from@.len() && from_names_secret(#[trigger] c.env_from@[j], name)
}

/// `names` lists a name reading as `n`.
pub open spec fn name_listed(names: Seq<String>, n: Seq<char>) -> bool {
    exists|p: int| 0 <= p < names.len() && (#[trigger] names[p])@ == n
}

impl Container {
    /// The config maps the container's environment references, for the
    /// driver to fetch: exactly the names of [`config_map_referenced`],
    /// possibly repeated.
    pub fn config_map_refs(&self) -> (r: Vec<String>)
        ensures
            forall|p: int|
                0 <= p < r@.len() ==> config_map_referenced(*self, (#[trigger] r@[p])@),
            forall|j: int|
                0 <= j < self.env@.len() ==> (forall|n: Seq<char>|
                    env_names_config_map(#[trigger] self.env@[j], n) ==> #[trigger] name_listed(
                        r@,
                        n,
                    )),
            forall|j: int|
                0 <= j < self.env_from@.len() ==> (forall|n: Seq<char>|
                    from_names_config_map(#[trigger] self.env_from@[j], n)
                        ==> #[trigger] name_listed(r@, n)),
    {
        let mut r: Vec<String> = Vec::new();
        let mut i: usize = 0;
        while i < self.env.len()
            invariant
                i <= self.env@.len(),
                forall|p: int|
                    0 <= p < r@.len() ==> config_map_referenced(*self, (#[trigger] r@[p])@),
                forall|j: int|
                    0 <= j < i ==> (forall|n: Seq<char>|
                        env_names_config_map(#[trigger] self.env@[j], n)
                            ==> #[trigger] name_listed(r@, n)),
            decreases self.env@.len() - i,
        {
            let ghost r0 = r@;
            if let Some(src) = &self.env[i].value_from {
                if let Some(kr) = &src.config_map_key_ref {
                    if let Some(n) = &kr.name {
                        r.push(n.clone());
                        proof {
                            assert(r@[r@.len() - 1]@ == n@);
                            assert(env_names_config_map(self.env@[i as int], n@));
                        }
                    }
                }
            }
            proof {
                assert forall|p: int| 0 <= p < r@.len() implies config_map_referenced(
                    *self,
                    (#[trigger] r@[p])@,
                ) by {
                    if p < r0.len() {
                        assert(r@[p] == r0[p]);
                        assert(config_map_referenced(*self, r0[p]@));
                    } else {
                        assert(config_map_referenced(*self, r@[p]@));
                    }
                }
                assert forall|j: int, n: Seq<char>|
                    0 <= j < i + 1 && env_names_config_map(
                        #[trigger] self.env@[j],
                        n,
                    ) implies #[trigger] name_listed(r@, n) by {
                    if j < i {
                        assert(name_listed(r0, n));
                        let p = choose|p: int| 0 <= p < r0.len() && (#[trigger] r0[p])@ == n;
                        assert(r@[p] == r0[p]);
                        assert(name_listed(r@, n));
                    } else {
                        assert(r@[r@.len() - 1]@ == n);
                        assert(name_listed(r@, n));
                    }
                }
            }
            i = i + 1;
        }
        let mut k: usize = 0;
        while k < self.env_from.len()
            invariant
                k <= self.env_from@.len(),
                forall|p: int|
                    0 <= p < r@.len() ==> config_map_referenced(*self, (#[trigger] r@[p])@),
                forall|j: int|
                    0 <= j < self.env@.len() ==> (forall|n: Seq<char>|
                        env_names_config_map(#[trigger] self.env@[j], n)
                            ==> #[trigger] name_listed(r@, n)),
                forall|j: int|
                    0 <= j < k ==> (forall|n: Seq<char>|
                        from_names_config_map(#[trigger] self.env_from@[j], n)
                            ==> #[trigger] name_listed(r@, n)),
            decreases self.env_from@.len() - k,
        {
            let ghost r0 = r@;
            if let Some(n) = &self.env_from[k].config_map {
                r.push(n.clone());
                proof {
                    assert(r@[r@.len() - 1]@ == n@);
                    assert(from_names_config_map(self.env_from@[k as int], n@));
                }
            }
            proof {
                assert forall|p: int| 0 <= p < r@.len() implies config_map_referenced(
                    *self,
                    (#[trigger] r@[p])@,
                ) by {
                    if p < r0.len() {
                        assert(r@[p] == r0[p]);
                        assert(config_map_referenced(*self, r0[p]@));
                    } else {
                        assert(config_map_referenced(*self, r@[p]@));
                    }
                }
                assert forall|j: int, n: Seq<char>|
                    0 <= j < self.env@.len() && env_names_config_map(
                        #[trigger] self.env@[j],
                        n,
                    ) implies #[trigger] name_listed(r@, n) by {
                    assert(name_listed(r0, n));
                    let p = choose|p: int| 0 <= p < r0.len() && (#[trigger] r0[p])@ == n;
                    assert(r@[p] == r0[p]);
                    assert(name_listed(r@, n));
                }
                assert forall|j: int, n: Seq<char>|
                    0 <= j < k + 1 && from_names_config_map(
                        #[trigger] self.env_from@[j],
                        n,
                    ) implies #[trigger] name_listed(r@, n) by {
                    if j < k {
                        assert(name_listed(r0, n));
                        let p = choose|p: int| 0 <= p < r0.len() && (#[trigger] r0[p])@ == n;
                        assert(r@[p] == r0[p]);
                        assert(name_listed(r@, n));
                    } else {
                        assert(r@[r@.len() - 1]@ == n);
                        assert(name_listed(r@, n));
                    }
                }
            }
            k = k + 1;
        }
        r
    }

    /// The secrets the container's environment imports, for the driver
    /// to fetch: exactly the names of [`secret_referenced`], possibly
    /// repeated.
    pub fn secret_refs(&self) -> (r: Vec<String>)
        ensures
            forall|p: int|
                0 <= p < r@.len() ==> secret_referenced(*self, (#[trigger] r@[p])@),
            forall|j: int|
                0 <= j < self.env_from@.len() ==> (forall|n: Seq<char>|
                    from_names_secret(#[trigger] self.env_from@[j], n) ==> #[trigger] name_listed(
                        r@,
                        n,
                    )),
    {
        let mut r: Vec<String> = Vec::new();
        let mut k: usize = 0;
        while k < self.env_from.len()
            invariant
                k <= self.env_from@.len(),
                forall|p: int|
                    0 <= p < r@.len() ==> secret_referenced(*self, (#[trigger] r@[p])@),
                forall|j: int|
                    0 <= j < k ==> (forall|n: Seq<char>|
                        from_names_secret(#[trigger] self.env_from@[j], n)
                            ==> #[trigger] name_listed(r@, n)),
            decreases self.env_from@.len() - k,
        {
            let ghost r0 = r@;
            if let Some(n) = &self.env_from[k].secret {
                r.push(n.clone());
                proof {
                    assert(r@[r@.len() - 1]@ == n@);
                    assert(from_names_secret(self.env_from@[k as int], n@));
                }
            }
            proof {
                assert forall|p: int| 0 <= p < r@.len() implies secret_referenced(
                    *self,
                    (#[trigger] r@[p])@,
                ) by {
                    if p < r0.len() {
                        assert(r@[p] == r0[p]);
                        assert(secret_referenced(*self, r0[p]@));
                    } else {
                        assert(secret_referenced(*self, r@[p]@));
                    }
                }
                assert forall|j: int, n: Seq<char>|
                    0 <= j < k + 1 && from_names_secret(
                        #[trigger] self.env_from@[j],
                        n,
                    ) implies #[trigger] name_listed(r@, n) by {
                    if j < k {
                        assert(name_listed(r0, n));
                        let p = choose|p: int| 0 <= p < r0.len() && (#[trigger] r0[p])@ == n;
                        assert(r@[p] == r0[p]);
                        assert(name_listed(r@, n));
                    } else {
                        assert(r@[r@.len() - 1]@ == n);
                        assert(name_listed(r@, n));
                    }
                }
            }
            k = k + 1;
        }
        r
    }
}

} // verus!
