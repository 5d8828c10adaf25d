//! The feature graph of a workspace crate's Cargo.toml, and the queries the
//! feature-policy rules are built from.
//!
//! A feature is a named node whose edges are the entries listed for it in
//! the `[features]` table. An edge may point at another feature of the same
//! crate or at a feature of a dependency (such as `other-crate/full`); only
//! named features have outgoing edges of their own. A feature B is reachable
//! from A when a nonempty path leads from A to B.

use vstd::prelude::*;

verus! {

/// A dependency entry read from a Cargo.toml `[dependencies]` table: its
/// name, whether it is optional, and whether it has a `path` key.
pub struct DepEntry {
    /// The dependency's name.
    pub name: String,
    /// Whether the dependency is optional.
    pub optional: bool,
    /// Whether the entry has `path` set, which marks a crate of the same
    /// workspace.
    pub has_path: bool,
}

/// A dependency that is part of the same workspace. All we care about is
/// its name, and whether it is optional.
pub struct Dependency {
    /// The dependency's name.
    pub name: String,
    /// Whether the dependency is optional.
    pub optional: bool,
}

/// The workspace dependencies among `entries`: those with `path` set, in
/// order.
pub open spec fn workspace_deps(entries: Seq<DepEntry>) -> Seq<(Seq<char>, bool)>
    decreases entries.len(),
{
    if entries.len() == 0 {
        Seq::empty()
    } else {
        let rest = workspace_deps(entries.drop_last());
        if entries.last().has_path {
            rest.push((entries.last().name@, entries.last().optional))
        } else {
            rest
        }
    }
}

/// Given the entries of a `[dependencies]` table, find the dependencies
/// that are also part of the workspace: the ones that have `path` set.
pub fn arti_dependencies(entries: Vec<DepEntry>) -> (r: Vec<Dependency>)
    ensures
        r@.map_values(|d: Dependency| (d.name@, d.optional)) == workspace_deps(entries@),
{
    let mut deps: Vec<Dependency> = Vec::new();
    let mut i: usize = 0;
    while i < entries.len()
        invariant
            i <= entries.len(),
            deps@.map_values(|d: Dependency| (d.name@, d.optional)) == workspace_deps(
                entries@.take(i as int),
            ),
        decreases entries.len() - i,
    {
        let e = &entries[i];
        if e.has_path {
            deps.push(Dependency { name: e.name.clone(), optional: e.optional });
        }
        i += 1;
        proof {
            assert(entries@.take(i as int).drop_last() =~= entries@.take(i - 1));
            assert(deps@.map_values(|d: Dependency| (d.name@, d.optional)) =~= workspace_deps(
                entries@.take(i as int),
            ));
        }
    }
    proof {
        assert(entries@.take(entries@.len() as int) =~= entries@);
    }
    deps
}

/// One feature and the features it directly depends on.
pub struct Feature {
    /// The feature's name.
    pub name: String,
    /// The entries listed for the feature: the edges out of it.
    pub edges: Vec<String>,
}

/// Whether the sequence of strings holds `s`.
pub open spec fn seq_contains_str(v: Seq<String>, s: Seq<char>) -> bool {
    exists|i: int| 0 <= i < v.len() && (#[trigger] v[i])@ == s
}

/// The feature graph of one crate.
pub struct FeatureGraph {
    /// The graph's features, with their direct dependencies.
    pub features: Vec<Feature>,
}

impl FeatureGraph {
    /// Whether a feature of this name exists.
    pub open spec fn has_feature(&self, name: Seq<char>) -> bool {
        exists|i: int| 0 <= i < self.features@.len() && (#[trigger] self.features@[i]).name@ == name
    }

    /// Whether the graph has an edge from the feature named `from` to the
    /// entry `to`.
    pub open spec fn edge(&self, from: Seq<char>, to: Seq<char>) -> bool {
        exists|i: int|
            0 <= i < self.features@.len() && (#[trigger] self.features@[i]).name@ == from
                && seq_contains_str(self.features@[i].edges@, to)
    }

    /// A set of entries is closed for `start` when it holds every edge out
    /// of `start` and every edge out of any feature it holds.
    pub open spec fn closed_from(&self, start: Seq<char>, s: Set<Seq<char>>) -> bool {
        &&& forall|t: Seq<char>| #[trigger] self.edge(start, t) ==> s.contains(t)
        &&& forall|f: Seq<char>, t: Seq<char>|
            s.contains(f) && #[trigger] self.edge(f, t) ==> s.contains(t)
    }

    /// Build a graph from its features.
    pub fn new(features: Vec<Feature>) -> (r: Self)
        ensures
            r.features == features,
    {
        Self { features }
    }

    /// Whether this graph declares a feature named `name`.
    pub fn contains_feature(&self, name: &String) -> (r: bool)
        ensures
            r == self.has_feature(name@),
    {
        let mut i: usize = 0;
        while i < self.features.len()
            invariant
                i <= self.features@.len(),
                forall|k: int| 0 <= k < i ==> (#[trigger] self.features@[k]).name@ != name@,
            decreases self.features@.len() - i,
        {
            if self.features[i].name == *name {
                return true;
            }
            i += 1;
        }
        false
    }

    /// Whether the feature named `from` lists `to`.
    pub fn contains_edge(&self, from: &String, to: &String) -> (r: bool)
        ensures
            r == self.edge(from@, to@),
    {
        let mut i: usize = 0;
        while i < self.features.len()
            invariant
                i <= self.features@.len(),
                forall|k: int|
                    0 <= k < i ==> !((#[trigger] self.features@[k]).name@ == from@
                        && seq_contains_str(self.features@[k].edges@, to@)),
            decreases self.features@.len() - i,
        {
            if self.features[i].name == *from && str_vec_contains(&self.features[i].edges, to) {
                return true;
            }
            i += 1;
        }
        false
    }

    /// The names of all features of this graph.
    pub fn all_features(&self) -> (r: Vec<String>)
        ensures
            forall|t: Seq<char>| #[trigger] seq_contains_str(r@, t) <==> self.has_feature(t),
    {
        let mut out: Vec<String> = Vec::new();
        let mut i: usize = 0;
        while i < self.features.len()
            invariant
                i <= self.features@.len(),
                forall|t: Seq<char>| #[trigger] seq_contains_str(out@, t) ==> self.has_feature(t),
                forall|k: int|
                    0 <= k < i ==> seq_contains_str(out@, (#[trigger] self.features@[k]).name@),
            decreases self.features@.len() - i,
        {
            push_unique(&mut out, &self.features[i].name);
            i += 1;
        }
        out
    }

    /// Every entry the feature named `name` lists, over all features of
    /// that name.
    pub fn edges_from(&self, name: &String) -> (r: Vec<String>)
        ensures
            forall|k: int| 0 <= k < r@.len() ==> self.edge(name@, (#[trigger] r@[k])@),
            forall|t: Seq<char>| #[trigger] self.edge(name@, t) ==> seq_contains_str(r@, t),
    {
        let mut out: Vec<String> = Vec::new();
        let mut i: usize = 0;
        while i < self.features.len()
            invariant
                i <= self.features@.len(),
                forall|k: int| 0 <= k < out@.len() ==> self.edge(name@, (#[trigger] out@[k])@),
                forall|k: int, j: int|
                    0 <= k < i && self.features@[k].name@ == name@ && 0 <= j
                        < self.features@[k].edges@.len() ==> seq_contains_str(
                        out@,
                        (#[trigger] self.features@[k].edges@[j])@,
                    ),
            decreases self.features@.len() - i,
        {
            if self.features[i].name == *name {
                let mut j: usize = 0;
                while j < self.features[i].edges.len()
                    invariant
                        0 <= i < self.features@.len(),
                        j <= self.features@[i as int].edges@.len(),
                        self.features@[i as int].name@ == name@,
                        forall|k: int|
                            0 <= k < out@.len() ==> self.edge(name@, (#[trigger] out@[k])@),
                        forall|k: int, jj: int|
                            0 <= k < i && self.features@[k].name@ == name@ && 0 <= jj
                                < self.features@[k].edges@.len() ==> seq_contains_str(
                                out@,
                                (#[trigger] self.features@[k].edges@[jj])@,
                            ),
                        forall|jj: int|
                            0 <= jj < j ==> seq_contains_str(
                                out@,
                                (#[trigger] self.features@[i as int].edges@[jj])@,
                            ),
                    decreases self.features@[i as int].edges@.len() - j,
                {
                    let t = &self.features[i].edges[j];
                    proof {
                        assert(seq_contains_str(self.features@[i as int].edges@, t@));
                        assert(self.edge(name@, t@));
                    }
                    push_unique(&mut out, t);
                    j += 1;
                }
            }
            i += 1;
        }
        out
    }

    /// The names of the features that list `name`.
    pub fn edges_to(&self, name: &String) -> (r: Vec<String>)
        ensures
            forall|k: int| 0 <= k < r@.len() ==> self.edge((#[trigger] r@[k])@, name@),
            forall|f: Seq<char>| #[trigger] self.edge(f, name@) ==> seq_contains_str(r@, f),
    {
        let mut out: Vec<String> = Vec::new();
        let mut i: usize = 0;
        while i < self.features.len()
            invariant
                i <= self.features@.len(),
                forall|k: int| 0 <= k < out@.len() ==> self.edge((#[trigger] out@[k])@, name@),
                forall|k: int|
                    0 <= k < i && seq_contains_str(
                        (#[trigger] self.features@[k]).edges@,
                        name@,
                    ) ==> seq_contains_str(out@, self.features@[k].name@),
            decreases self.features@.len() - i,
        {
            if str_vec_contains(&self.features[i].edges, name) {
                proof {
                    assert(self.edge(self.features@[i as int].name@, name@));
                }
                push_unique(&mut out, &self.features[i].name);
            }
            i += 1;
        }
        out
    }
}

/// Whether the sequence of indices holds `i`.
pub open spec fn seq_contains_idx(q: Seq<usize>, i: int) -> bool {
    exists|p: int| 0 <= p < q.len() && (#[trigger] q[p]) as int == i
}

/// How many entries of `s` are set.
pub open spec fn count_marked(s: Seq<bool>) -> int
    decreases s.len(),
{
    if s.len() == 0 {
        0
    } else {
        count_marked(s.drop_last()) + if s.last() {
            1int
        } else {
            0int
        }
    }
}

proof fn lemma_count_marked_le_len(s: Seq<bool>)
    ensures
        0 <= count_marked(s) <= s.len(),
    decreases s.len(),
{
    if s.len() > 0 {
        lemma_count_marked_le_len(s.drop_last());
    }
}

proof fn lemma_count_marked_all_false(s: Seq<bool>)
    requires
        forall|k: int| 0 <= k < s.len() ==> !(#[trigger] s[k]),
    ensures
        count_marked(s) == 0,
    decreases s.len(),
{
    if s.len() > 0 {
        lemma_count_marked_all_false(s.drop_last());
    }
}

proof fn lemma_count_marked_update(s: Seq<bool>, k: int)
    requires
        0 <= k < s.len(),
        !s[k],
    ensures
        count_marked(s.update(k, true)) == count_marked(s) + 1,
    decreases s.len(),
{
    if k == s.len() - 1 {
        assert(s.update(k, true).drop_last() =~= s.drop_last());
    } else {
        assert(s.update(k, true).drop_last() =~= s.drop_last().update(k, true));
        lemma_count_marked_update(s.drop_last(), k);
    }
}

impl FeatureGraph {
    /// Every marked feature's name belongs to every closed set of entries.
    pub open spec fn marked_sound(&self, start: Seq<char>, marked: Seq<bool>) -> bool {
        forall|i: int, s: Set<Seq<char>>|
            #![trigger marked[i], self.closed_from(start, s)]
            0 <= i < self.features@.len() && marked[i] && self.closed_from(start, s)
                ==> s.contains(self.features@[i].name@)
    }

    /// Everything reachable from the feature named `start` by one or more
    /// edges: exactly the smallest set of entries that holds every edge out
    /// of `start` and is closed under the edges of the features it holds.
    #[verifier::loop_isolation(false)]
    pub fn all_reachable_from(&self, start: &String) -> (r: Vec<String>)
        ensures
            forall|t: Seq<char>| #[trigger] self.edge(start@, t) ==> seq_contains_str(r@, t),
            forall|f: Seq<char>, t: Seq<char>|
                seq_contains_str(r@, f) && #[trigger] self.edge(f, t) ==> seq_contains_str(r@, t),
            forall|s: Set<Seq<char>>, t: Seq<char>|
                #[trigger] self.closed_from(start@, s) && #[trigger] seq_contains_str(r@, t)
                    ==> s.contains(t),
    {
        let n = self.features.len();
        let seeds = self.edges_from(start);

        // Mark every feature whose name is a direct edge of `start`.
        let mut marked: Vec<bool> = Vec::new();
        while marked.len() < n
            invariant
                marked@.len() <= n,
                forall|k: int| 0 <= k < marked@.len() ==> !(#[trigger] marked@[k]),
            decreases n - marked@.len(),
        {
            marked.push(false);
        }
        proof {
            lemma_count_marked_all_false(marked@);
        }
        let mut queue: Vec<usize> = Vec::new();
        let mut k: usize = 0;
        while k < n
            invariant
                k <= n,
                marked@.len() == n,
                forall|p: int|
                    0 <= p < queue@.len() ==> (#[trigger] queue@[p]) < n
                        && marked@[queue@[p] as int],
                self.marked_sound(start@, marked@),
                forall|k2: int|
                    0 <= k2 < k && seq_contains_str(
                        seeds@,
                        (#[trigger] self.features@[k2]).name@,
                    ) ==> marked@[k2],
                forall|k2: int| k <= k2 < n ==> !(#[trigger] marked@[k2]),
                forall|k2: int| 0 <= k2 < n && (#[trigger] marked@[k2]) ==> seq_contains_idx(
                    queue@,
                    k2,
                ),
                count_marked(marked@) == queue@.len(),
            decreases n - k,
        {
            if str_vec_contains(&seeds, &self.features[k].name) {
                proof {
                    lemma_count_marked_update(marked@, k as int);
                    let p0 = choose|p0: int|
                        0 <= p0 < seeds@.len() && (#[trigger] seeds@[p0])@ == self.features@[
                            k as int
                        ].name@;
                    assert(self.edge(start@, seeds@[p0]@));
                    let ghost m1 = marked@.update(k as int, true);
                    assert forall|i: int, s: Set<Seq<char>>|
                        0 <= i < self.features@.len() && #[trigger] m1[i]
                            && #[trigger] self.closed_from(start@, s) implies s.contains(
                        self.features@[i].name@,
                    ) by {
                        if i != k as int {
                            assert(marked@[i]);
                        }
                    }
                }
                marked[k] = true;
                let ghost q0 = queue@;
                queue.push(k);
                proof {
                    assert forall|p: int|
                        0 <= p < queue@.len() implies (#[trigger] queue@[p]) < n
                        && marked@[queue@[p] as int] by {
                        if p < q0.len() {
                            assert(q0[p] == queue@[p]);
                        }
                    }
                    assert forall|i2: int|
                        seq_contains_idx(q0, i2) implies seq_contains_idx(queue@, i2) by {
                        let p = choose|p: int|
                            0 <= p < q0.len() && (#[trigger] q0[p]) as int == i2;
                        assert(queue@[p] as int == i2);
                    }
                    assert(queue@[queue@.len() - 1] as int == k as int);
                    assert(seq_contains_idx(queue@, k as int));
                }
            }
            k += 1;
        }
        proof {
            lemma_count_marked_le_len(marked@);
            assert forall|i2: int, j2: int, k2: int|
                #![trigger self.features@[i2].edges@[j2], self.features@[k2]]
                0 <= i2 < n && marked@[i2] && !seq_contains_idx(queue@, i2) && 0 <= j2
                    < self.features@[i2].edges@.len() && 0 <= k2 < n && self.features@[k2].name@
                    == self.features@[i2].edges@[j2]@ implies marked@[k2] by {
                assert(seq_contains_idx(queue@, i2));
            }
        }

        // Saturate: pop a known-reachable feature and mark every feature
        // one of its edges names.
        while queue.len() > 0
            invariant
                marked@.len() == n,
                forall|p: int|
                    0 <= p < queue@.len() ==> (#[trigger] queue@[p]) < n
                        && marked@[queue@[p] as int],
                self.marked_sound(start@, marked@),
                forall|k2: int|
                    0 <= k2 < n && seq_contains_str(
                        seeds@,
                        (#[trigger] self.features@[k2]).name@,
                    ) ==> marked@[k2],
                forall|i2: int, j2: int, k2: int|
                    #![trigger self.features@[i2].edges@[j2], self.features@[k2]]
                    0 <= i2 < n && marked@[i2] && !seq_contains_idx(queue@, i2) && 0 <= j2
                        < self.features@[i2].edges@.len() && 0 <= k2 < n
                        && self.features@[k2].name@ == self.features@[i2].edges@[j2]@
                        ==> marked@[k2],
                count_marked(marked@) <= n,
            decreases n - count_marked(marked@), queue@.len(),
        {
            let ghost count0 = count_marked(marked@);
            let ghost qlen0 = queue@.len() as int;
            let ghost q_before = queue@;
            let fi = queue.pop().unwrap();
            proof {
                assert forall|i2: int|
                    seq_contains_idx(q_before, i2) && i2 != fi as int implies seq_contains_idx(
                    queue@,
                    i2,
                ) by {
                    let p = choose|p: int|
                        0 <= p < q_before.len() && (#[trigger] q_before[p]) as int == i2;
                    assert(queue@[p] as int == i2);
                }
            }
            let mut j: usize = 0;
            while j < self.features[fi].edges.len()
                invariant
                    fi < n,
                    marked@.len() == n,
                    j <= self.features@[fi as int].edges@.len(),
                    marked@[fi as int],
                    forall|p: int|
                        0 <= p < queue@.len() ==> (#[trigger] queue@[p]) < n
                            && marked@[queue@[p] as int],
                    self.marked_sound(start@, marked@),
                    forall|k2: int|
                        0 <= k2 < n && seq_contains_str(
                            seeds@,
                            (#[trigger] self.features@[k2]).name@,
                        ) ==> marked@[k2],
                    forall|i2: int, j2: int, k2: int|
                        #![trigger self.features@[i2].edges@[j2], self.features@[k2]]
                        0 <= i2 < n && marked@[i2] && i2 != fi as int && !seq_contains_idx(
                            queue@,
                            i2,
                        ) && 0 <= j2 < self.features@[i2].edges@.len() && 0 <= k2 < n
                            && self.features@[k2].name@ == self.features@[i2].edges@[j2]@
                            ==> marked@[k2],
                    forall|j2: int, k2: int|
                        #![trigger self.features@[fi as int].edges@[j2], self.features@[k2]]
                        0 <= j2 < j && 0 <= k2 < n && self.features@[k2].name@
                            == self.features@[fi as int].edges@[j2]@ ==> marked@[k2],
                    count_marked(marked@) - queue@.len() == count0 - (qlen0 - 1),
                    count0 <= count_marked(marked@) <= n,
                decreases self.features@[fi as int].edges@.len() - j,
            {
                let mut k2: usize = 0;
                while k2 < n
                    invariant
                        k2 <= n,
                        j < self.features@[fi as int].edges@.len(),
                        marked@.len() == n,
                        marked@[fi as int],
                        forall|p: int|
                            0 <= p < queue@.len() ==> (#[trigger] queue@[p]) < n
                                && marked@[queue@[p] as int],
                        self.marked_sound(start@, marked@),
                        forall|k3: int|
                            0 <= k3 < n && seq_contains_str(
                                seeds@,
                                (#[trigger] self.features@[k3]).name@,
                            ) ==> marked@[k3],
                        forall|i2: int, j2: int, k3: int|
                            #![trigger self.features@[i2].edges@[j2], self.features@[k3]]
                            0 <= i2 < n && marked@[i2] && i2 != fi as int && !seq_contains_idx(
                                queue@,
                                i2,
                            ) && 0 <= j2 < self.features@[i2].edges@.len() && 0 <= k3 < n
                                && self.features@[k3].name@ == self.features@[i2].edges@[j2]@
                                ==> marked@[k3],
                        forall|j2: int, k3: int|
                            #![trigger self.features@[fi as int].edges@[j2], self.features@[k3]]
                            0 <= j2 < j && 0 <= k3 < n && self.features@[k3].name@
                                == self.features@[fi as int].edges@[j2]@ ==> marked@[k3],
                        forall|k3: int|
                            0 <= k3 < k2 && (#[trigger] self.features@[k3]).name@
                                == self.features@[fi as int].edges@[j as int]@ ==> marked@[k3],
                        count_marked(marked@) - queue@.len() == count0 - (qlen0 - 1),
                        count0 <= count_marked(marked@) <= n,
                    decreases n - k2,
                {
                    if self.features[k2].name == self.features[fi].edges[j] && !marked[k2] {
                        proof {
                            lemma_count_marked_update(marked@, k2 as int);
                            assert(seq_contains_str(
                                self.features@[fi as int].edges@,
                                self.features@[fi as int].edges@[j as int]@,
                            ));
                            assert(self.edge(
                                self.features@[fi as int].name@,
                                self.features@[fi as int].edges@[j as int]@,
                            ));
                            let ghost m1 = marked@.update(k2 as int, true);
                            assert forall|i: int, s: Set<Seq<char>>|
                                0 <= i < self.features@.len() && #[trigger] m1[i]
                                    && #[trigger] self.closed_from(start@, s) implies s.contains(
                                self.features@[i].name@,
                            ) by {
                                if i == k2 as int {
                                    assert(marked@[fi as int]);
                                    assert(s.contains(self.features@[fi as int].name@));
                                    assert(s.contains(self.features@[i].name@));
                                } else {
                                    assert(marked@[i]);
                                }
                            }
                        }
                        marked[k2] = true;
                        proof {
                            lemma_count_marked_le_len(marked@);
                        }
                        let ghost q0 = queue@;
                        queue.push(k2);
                        proof {
                            assert forall|p: int|
                                0 <= p < queue@.len() implies (#[trigger] queue@[p]) < n
                                && marked@[queue@[p] as int] by {
                                if p < q0.len() {
                                    assert(q0[p] == queue@[p]);
                                }
                            }
                            assert forall|i2: int|
                                seq_contains_idx(q0, i2) implies seq_contains_idx(queue@, i2) by {
                                let p = choose|p: int|
                                    0 <= p < q0.len() && (#[trigger] q0[p]) as int == i2;
                                assert(queue@[p] as int == i2);
                            }
                            assert(queue@[queue@.len() - 1] as int == k2 as int);
                            assert(seq_contains_idx(queue@, k2 as int));
                        }
                    }
                    k2 += 1;
                }
                j += 1;
            }
        }

        // Assemble: the direct edges of `start`, then every edge of every
        // marked feature.
        let mut out: Vec<String> = Vec::new();
        let mut p: usize = 0;
        while p < seeds.len()
            invariant
                p <= seeds@.len(),
                forall|k3: int|
                    0 <= k3 < out@.len() ==> seq_contains_str(seeds@, (#[trigger] out@[k3])@),
                forall|p2: int| 0 <= p2 < p ==> seq_contains_str(out@, (#[trigger] seeds@[p2])@),
            decreases seeds@.len() - p,
        {
            push_unique(&mut out, &seeds[p]);
            p += 1;
        }
        let mut i: usize = 0;
        while i < n
            invariant
                i <= n,
                forall|p2: int|
                    0 <= p2 < seeds@.len() ==> seq_contains_str(out@, (#[trigger] seeds@[p2])@),
                forall|k3: int|
                    0 <= k3 < out@.len() ==> seq_contains_str(seeds@, (#[trigger] out@[k3])@)
                        || exists|i2: int|
                        0 <= i2 < n && marked@[i2] && seq_contains_str(
                            (#[trigger] self.features@[i2]).edges@,
                            out@[k3]@,
                        ),
                forall|k3: int, j2: int|
                    #![trigger self.features@[k3].edges@[j2]]
                    0 <= k3 < i && marked@[k3] && 0 <= j2 < self.features@[k3].edges@.len()
                        ==> seq_contains_str(out@, self.features@[k3].edges@[j2]@),
            decreases n - i,
        {
            if marked[i] {
                let mut j: usize = 0;
                while j < self.features[i].edges.len()
                    invariant
                        i < n,
                        marked@[i as int],
                        j <= self.features@[i as int].edges@.len(),
                        forall|p2: int|
                            0 <= p2 < seeds@.len() ==> seq_contains_str(
                                out@,
                                (#[trigger] seeds@[p2])@,
                            ),
                        forall|k3: int|
                            0 <= k3 < out@.len() ==> seq_contains_str(
                                seeds@,
                                (#[trigger] out@[k3])@,
                            ) || exists|i2: int|
                                0 <= i2 < n && marked@[i2] && seq_contains_str(
                                    (#[trigger] self.features@[i2]).edges@,
                                    out@[k3]@,
                                ),
                        forall|k3: int, j2: int|
                            #![trigger self.features@[k3].edges@[j2]]
                            0 <= k3 < i && marked@[k3] && 0 <= j2 < self.features@[k3].edges@.len()
                                ==> seq_contains_str(out@, self.features@[k3].edges@[j2]@),
                        forall|j2: int|
                            0 <= j2 < j ==> seq_contains_str(
                                out@,
                                (#[trigger] self.features@[i as int].edges@[j2])@,
                            ),
                    decreases self.features@[i as int].edges@.len() - j,
                {
                    proof {
                        assert(seq_contains_str(
                            self.features@[i as int].edges@,
                            self.features@[i as int].edges@[j as int]@,
                        ));
                    }
                    push_unique(&mut out, &self.features[i].edges[j]);
                    j += 1;
                }
            }
            i += 1;
        }

        proof {
            // Every direct edge of `start` is covered, because `seeds` is
            // complete and `out` holds all of `seeds`.
            assert forall|t: Seq<char>| #[trigger] self.edge(start@, t) implies seq_contains_str(
                out@,
                t,
            ) by {
                let p2 = choose|p2: int| 0 <= p2 < seeds@.len() && (#[trigger] seeds@[p2])@ == t;
                assert(seq_contains_str(out@, seeds@[p2]@));
            }
            // Closure: an entry of `out` with edges is a feature, every
            // feature named by an entry of `out` is marked, and the edges
            // of marked features are all in `out`.
            assert forall|f: Seq<char>, t: Seq<char>|
                seq_contains_str(out@, f) && #[trigger] self.edge(f, t) implies seq_contains_str(
                out@,
                t,
            ) by {
                let i0 = choose|i0: int|
                    0 <= i0 < self.features@.len() && (#[trigger] self.features@[i0]).name@ == f
                        && seq_contains_str(self.features@[i0].edges@, t);
                let k3 = choose|k3: int| 0 <= k3 < out@.len() && (#[trigger] out@[k3])@ == f;
                if seq_contains_str(seeds@, f) {
                    assert(marked@[i0]);
                } else {
                    let i2 = choose|i2: int|
                        0 <= i2 < n && marked@[i2] && seq_contains_str(
                            (#[trigger] self.features@[i2]).edges@,
                            f,
                        );
                    let j2 = choose|j2: int|
                        0 <= j2 < self.features@[i2].edges@.len()
                            && (#[trigger] self.features@[i2].edges@[j2])@ == f;
                    assert(marked@[i0]);
                }
                let j0 = choose|j0: int|
                    0 <= j0 < self.features@[i0].edges@.len()
                        && (#[trigger] self.features@[i0].edges@[j0])@ == t;
                assert(seq_contains_str(out@, self.features@[i0].edges@[j0]@));
            }
            // Minimality: everything in `out` lies in every closed set.
            assert forall|s: Set<Seq<char>>, t: Seq<char>|
                #[trigger] self.closed_from(start@, s) && #[trigger] seq_contains_str(
                out@,
                t,
            ) implies s.contains(t) by {
                let k3 = choose|k3: int| 0 <= k3 < out@.len() && (#[trigger] out@[k3])@ == t;
                if seq_contains_str(seeds@, t) {
                    let p2 = choose|p2: int|
                        0 <= p2 < seeds@.len() && (#[trigger] seeds@[p2])@ == t;
                    assert(self.edge(start@, seeds@[p2]@));
                } else {
                    let i2 = choose|i2: int|
                        0 <= i2 < n && marked@[i2] && seq_contains_str(
                            (#[trigger] self.features@[i2]).edges@,
                            t,
                        );
                    assert(s.contains(self.features@[i2].name@));
                    assert(self.edge(self.features@[i2].name@, t));
                }
            }
        }
        out
    }
}

/// The strings of `a` that do not appear in `b`, kept in `a`'s order,
/// without duplicates.
pub fn string_set_difference(a: &Vec<String>, b: &Vec<String>) -> (r: Vec<String>)
    ensures
        forall|t: Seq<char>|
            #[trigger] seq_contains_str(r@, t) <==> (seq_contains_str(a@, t)
                && !seq_contains_str(b@, t)),
{
    let mut out: Vec<String> = Vec::new();
    let mut i: usize = 0;
    while i < a.len()
        invariant
            i <= a@.len(),
            forall|t: Seq<char>|
                #[trigger] seq_contains_str(out@, t) ==> (seq_contains_str(a@, t)
                    && !seq_contains_str(b@, t)),
            forall|k: int|
                0 <= k < i && !seq_contains_str(b@, (#[trigger] a@[k])@) ==> seq_contains_str(
                    out@,
                    a@[k]@,
                ),
        decreases a@.len() - i,
    {
        if !str_vec_contains(b, &a[i]) {
            proof {
                assert(seq_contains_str(a@, a@[i as int]@));
            }
            push_unique(&mut out, &a[i]);
        }
        i += 1;
    }
    proof {
        assert forall|t: Seq<char>|
            seq_contains_str(a@, t) && !seq_contains_str(b@, t) implies #[trigger] seq_contains_str(
            out@,
            t,
        ) by {
            let k = choose|k: int| 0 <= k < a@.len() && (#[trigger] a@[k])@ == t;
            assert(seq_contains_str(out@, a@[k]@));
        }
    }
    out
}

/// The strings that appear in both `a` and `b`, kept in `a`'s order,
/// without duplicates.
pub fn string_set_intersection(a: &Vec<String>, b: &Vec<String>) -> (r: Vec<String>)
    ensures
        forall|t: Seq<char>|
            #[trigger] seq_contains_str(r@, t) <==> (seq_contains_str(a@, t) && seq_contains_str(
                b@,
                t,
            )),
{
    let mut out: Vec<String> = Vec::new();
    let mut i: usize = 0;
    while i < a.len()
        invariant
            i <= a@.len(),
            forall|t: Seq<char>|
                #[trigger] seq_contains_str(out@, t) ==> (seq_contains_str(a@, t)
                    && seq_contains_str(b@, t)),
            forall|k: int|
                0 <= k < i && seq_contains_str(b@, (#[trigger] a@[k])@) ==> seq_contains_str(
                    out@,
                    a@[k]@,
                ),
        decreases a@.len() - i,
    {
        if str_vec_contains(b, &a[i]) {
            proof {
                assert(seq_contains_str(a@, a@[i as int]@));
            }
            push_unique(&mut out, &a[i]);
        }
        i += 1;
    }
    proof {
        assert forall|t: Seq<char>|
            seq_contains_str(a@, t) && seq_contains_str(b@, t) implies #[trigger] seq_contains_str(
            out@,
            t,
        ) by {
            let k = choose|k: int| 0 <= k < a@.len() && (#[trigger] a@[k])@ == t;
            assert(seq_contains_str(out@, a@[k]@));
        }
    }
    out
}

/// Whether the vector holds a string equal to `s`.
pub fn str_vec_contains(v: &Vec<String>, s: &String) -> (r: bool)
    ensures
        r == seq_contains_str(v@, s@),
{
    let mut i: usize = 0;
    while i < v.len()
        invariant
            i <= v@.len(),
            forall|k: int| 0 <= k < i ==> (#[trigger] v@[k])@ != s@,
        decreases v@.len() - i,
    {
        if v[i] == *s {
            return true;
        }
        i += 1;
    }
    false
}

/// Append `s` unless an equal string is already present: afterwards the
/// vector holds exactly the strings it held before, plus `s`.
pub fn push_unique(v: &mut Vec<String>, s: &String)
    ensures
        final(v)@ == old(v)@ || final(v)@ == old(v)@.push(*s),
        forall|t: Seq<char>|
            #[trigger] seq_contains_str(final(v)@, t) <==> (seq_contains_str(old(v)@, t) || t
                == s@),
        seq_contains_str(final(v)@, s@),
{
    if !str_vec_contains(v, s) {
        v.push(s.clone());
        proof {
            assert forall|t: Seq<char>| #[trigger]
                seq_contains_str(v@, t) implies (seq_contains_str(old(v)@, t) || t == s@) by {
                let i = choose|i: int| 0 <= i < v@.len() && (#[trigger] v@[i])@ == t;
                if i < v@.len() - 1 {
                    assert(old(v)@[i]@ == t);
                }
            }
            assert forall|t: Seq<char>|
                (seq_contains_str(old(v)@, t) || t == s@) implies #[trigger] seq_contains_str(
                v@,
                t,
            ) by {
                if seq_contains_str(old(v)@, t) {
                    let i = choose|i: int| 0 <= i < old(v)@.len() && (#[trigger] old(v)@[i])@ == t;
                    assert(v@[i]@ == t);
                } else {
                    assert(v@[v@.len() - 1]@ == t);
                }
            }
        }
    }
}

} // verus!
