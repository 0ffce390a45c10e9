//! Dependency-graph rules — cycle detection, reachability, and the locked state
//! of a task that waits on others.
//!
//! The graph is a task's `depends_on` edges read as data: each id maps to the
//! ids of the tasks it depends on (its prerequisites). An id that turns up as a
//! prerequisite but has no entry of its own is unresolvable — a task deleted or
//! not yet synced to this device — and is read as a leaf with no further edges.

use vstd::prelude::*;

use crate::text::{contains_id, has_id, ids_view};

verus! {

/// The prerequisites an entry list gives `id`, or `None` when it has no entry.
pub open spec fn lookup(entries: Seq<(String, Vec<String>)>, id: Seq<char>) -> Option<Seq<Seq<char>>>
    decreases entries.len(),
{
    if entries.len() == 0 {
        None
    } else if entries.last().0@ == id {
        Some(ids_view(entries.last().1@))
    } else {
        lookup(entries.drop_last(), id)
    }
}

proof fn lemma_lookup_found(entries: Seq<(String, Vec<String>)>, id: Seq<char>, i: int)
    requires
        0 <= i < entries.len(),
        entries[i].0@ == id,
        forall|a: int, b: int|
            0 <= a < b < entries.len() ==> (#[trigger] entries[a]).0@ != (#[trigger] entries[b]).0@,
    ensures
        lookup(entries, id) == Some(ids_view(entries[i].1@)),
    decreases entries.len(),
{
    if i < entries.len() - 1 {
        assert(entries.last().0@ != id);
        lemma_lookup_found(entries.drop_last(), id, i);
    }
}

proof fn lemma_lookup_missing(entries: Seq<(String, Vec<String>)>, id: Seq<char>)
    requires
        forall|i: int| 0 <= i < entries.len() ==> (#[trigger] entries[i]).0@ != id,
    ensures
        lookup(entries, id) is None,
    decreases entries.len(),
{
    if entries.len() > 0 {
        lemma_lookup_missing(entries.drop_last(), id);
    }
}

/// The dependency edges of a task graph: each task id maps to the ids of the
/// tasks it depends on (its prerequisites). Each id has at most one entry.
#[derive(Debug)]
pub struct DependencyGraph {
    entries: Vec<(String, Vec<String>)>,
}

impl DependencyGraph {
    #[verifier::type_invariant]
    spec fn keys_distinct(self) -> bool {
        forall|i: int, j: int|
            0 <= i < j < self.entries@.len() ==> (#[trigger] self.entries@[i]).0@
                != (#[trigger] self.entries@[j]).0@
    }

    /// The prerequisites the graph gives a task, or `None` when the task has
    /// no entry (it is unresolvable).
    pub closed spec fn entry(self, id: Seq<char>) -> Option<Seq<Seq<char>>> {
        lookup(self.entries@, id)
    }

    /// A graph with no tasks in it.
    pub fn new() -> (graph: DependencyGraph)
        ensures
            forall|id: Seq<char>| #[trigger] graph.entry(id) is None,
    {
        DependencyGraph { entries: Vec::new() }
    }

    /// Sets the prerequisites of a task, replacing any it had.
    pub fn insert(&mut self, id: String, prerequisites: Vec<String>)
        ensures
            forall|k: Seq<char>|
                #[trigger] final(self).entry(k) == (if k == id@ {
                    Some(ids_view(prerequisites@))
                } else {
                    old(self).entry(k)
                }),
    {
        proof {
            use_type_invariant(&*self);
        }
        let ghost old_entries = self.entries@;
        let ghost key = id@;
        let ghost value = ids_view(prerequisites@);
        let mut i: usize = 0;
        while i < self.entries.len()
            invariant
                0 <= i <= self.entries.len(),
                self.entries@ == old_entries,
                key == id@,
                value == ids_view(prerequisites@),
                old_entries == old(self).entries@,
                forall|k: int| 0 <= k < i ==> (#[trigger] self.entries@[k]).0@ != key,
                forall|a: int, b: int|
                    0 <= a < b < old_entries.len() ==> (#[trigger] old_entries[a]).0@
                        != (#[trigger] old_entries[b]).0@,
            decreases self.entries.len() - i,
        {
            let same = self.entries[i].0.eq(&id);
            assert(same == (self.entries@[i as int].0@ == key));
            if same {
                assert(old_entries[i as int].0@ == key);
                let mut entries = Vec::new();
                std::mem::swap(&mut entries, &mut self.entries);
                entries.set(i, (id, prerequisites));
                let ghost updated = entries@;
                proof {
                    assert(forall|j: int| 0 <= j < updated.len() && j != i ==> updated[j] == old_entries[j]);
                    assert(updated[i as int].0@ == key);
                    assert forall|a: int, b: int|
                        0 <= a < b < updated.len() implies (#[trigger] updated[a]).0@
                        != (#[trigger] updated[b]).0@ by {
                        assert(old_entries[a].0@ != old_entries[b].0@);
                    }
                    assert forall|k: Seq<char>| #[trigger] lookup(updated, k) == (if k == key {
                        Some(value)
                    } else {
                        lookup(old_entries, k)
                    }) by {
                        if k == key {
                            lemma_lookup_found(updated, k, i as int);
                        } else if exists|j: int| 0 <= j < old_entries.len() && (#[trigger] old_entries[j]).0@ == k {
                            let j = choose|j: int| 0 <= j < old_entries.len() && (#[trigger] old_entries[j]).0@ == k;
                            lemma_lookup_found(updated, k, j);
                            lemma_lookup_found(old_entries, k, j);
                        } else {
                            assert forall|j: int| 0 <= j < updated.len() implies (#[trigger] updated[j]).0@ != k by {
                                if j != i {
                                    assert(updated[j] == old_entries[j]);
                                }
                            }
                            lemma_lookup_missing(updated, k);
                            lemma_lookup_missing(old_entries, k);
                        }
                    }
                }
                self.entries = entries;
                return;
            }
            i = i + 1;
        }
        let mut entries = Vec::new();
        std::mem::swap(&mut entries, &mut self.entries);
        entries.push((id, prerequisites));
        let ghost pushed = entries@;
        proof {
            let last = old_entries.len() as int;
            assert(pushed[last].0@ == key);
            assert(pushed.drop_last() == old_entries);
            assert forall|a: int, b: int|
                0 <= a < b < pushed.len() implies (#[trigger] pushed[a]).0@
                != (#[trigger] pushed[b]).0@ by {
                assert(pushed[a] == old_entries[a]);
                if b < last {
                    assert(old_entries[a].0@ != old_entries[b].0@);
                }
            }
            assert forall|k: Seq<char>| #[trigger] lookup(pushed, k) == (if k == key {
                Some(value)
            } else {
                lookup(old_entries, k)
            }) by {
            }
        }
        self.entries = entries;
    }
}


/// Pushing one id onto a list adds exactly that id to what the list holds.
proof fn lemma_push_contains(s: Seq<Seq<char>>, v: Seq<char>, x: Seq<char>)
    ensures
        s.push(v).contains(x) <==> s.contains(x) || x == v,
{
    if s.push(v).contains(x) {
        let k = choose|k: int| 0 <= k < s.push(v).len() && s.push(v)[k] == x;
        if k < s.len() {
            assert(s[k] == x);
        }
    }
    if s.contains(x) {
        let k = choose|k: int| 0 <= k < s.len() && s[k] == x;
        assert(s.push(v)[k] == x);
    }
    if x == v {
        assert(s.push(v)[s.len() as int] == x);
    }
}

/// Appends to `seen` each id of `more` that it does not hold yet.
fn add_unseen(seen: &mut Vec<String>, more: &Vec<String>)
    requires
        ids_view(old(seen)@).no_duplicates(),
    ensures
        ids_view(final(seen)@).no_duplicates(),
        old(seen)@.len() <= final(seen)@.len(),
        final(seen)@.subrange(0, old(seen)@.len() as int) == old(seen)@,
        forall|x: Seq<char>|
            #[trigger] ids_view(final(seen)@).contains(x) <==> ids_view(old(seen)@).contains(x)
                || ids_view(more@).contains(x),
{
    let ghost start = seen@;
    let mut j: usize = 0;
    while j < more.len()
        invariant
            0 <= j <= more.len(),
            ids_view(seen@).no_duplicates(),
            start.len() <= seen@.len(),
            seen@.subrange(0, start.len() as int) == start,
            forall|x: Seq<char>|
                #[trigger] ids_view(seen@).contains(x) <==> ids_view(start).contains(x)
                    || ids_view(more@).subrange(0, j as int).contains(x),
        decreases more.len() - j,
    {
        let ghost before = seen@;
        let ghost v = more@[j as int]@;
        let found = contains_id(seen.as_slice(), &more[j]);
        if !found {
            seen.push(more[j].clone());
            proof {
                assert(ids_view(seen@) =~= ids_view(before).push(v));
                assert(seen@.subrange(0, start.len() as int) =~= before.subrange(0, start.len() as int));
                assert forall|a: int, b: int|
                    0 <= a < b < ids_view(seen@).len() implies ids_view(seen@)[a] != ids_view(seen@)[b] by {
                    if b == before.len() {
                        assert(ids_view(before)[a] == ids_view(seen@)[a]);
                    }
                }
            }
        }
        proof {
            assert(ids_view(more@).subrange(0, j + 1) =~= ids_view(more@).subrange(0, j as int).push(v));
            assert forall|x: Seq<char>|
                #[trigger] ids_view(seen@).contains(x) <==> ids_view(start).contains(x)
                    || ids_view(more@).subrange(0, j + 1).contains(x) by {
                lemma_push_contains(ids_view(more@).subrange(0, j as int), v, x);
                lemma_push_contains(ids_view(before), v, x);
            }
        }
        j = j + 1;
    }
    proof {
        assert(ids_view(more@).subrange(0, more@.len() as int) =~= ids_view(more@));
    }
}

/// The prerequisites of one task, or none when the id is unresolvable.
pub open spec fn prereqs(graph: DependencyGraph, id: Seq<char>) -> Seq<Seq<char>> {
    match graph.entry(id) {
        Some(p) => p,
        None => seq![],
    }
}

/// `b` can be reached from `a` by following between one and `k` prerequisite
/// edges.
pub open spec fn reaches(graph: DependencyGraph, a: Seq<char>, b: Seq<char>, k: nat) -> bool
    decreases k,
{
    if k == 0 {
        false
    } else {
        prereqs(graph, a).contains(b) || exists|c: Seq<char>|
            #[trigger] prereqs(graph, a).contains(c) && reaches(graph, c, b, (k - 1) as nat)
    }
}

/// `b` is among the transitive prerequisites of `a`.
pub open spec fn reachable(graph: DependencyGraph, a: Seq<char>, b: Seq<char>) -> bool {
    exists|k: nat| #[trigger] reaches(graph, a, b, k)
}

/// Some task of the graph is among its own transitive prerequisites.
pub open spec fn is_cyclic(graph: DependencyGraph) -> bool {
    exists|id: Seq<char>| #[trigger] reachable(graph, id, id)
}

/// Every prerequisite id the entries name.
pub open spec fn all_prereqs(entries: Seq<(String, Vec<String>)>) -> Seq<Seq<char>>
    decreases entries.len(),
{
    if entries.len() == 0 {
        seq![]
    } else {
        all_prereqs(entries.drop_last()) + ids_view(entries.last().1@)
    }
}

proof fn lemma_prereqs_in_universe(entries: Seq<(String, Vec<String>)>, id: Seq<char>, x: Seq<char>)
    requires
        lookup(entries, id) matches Some(p) && p.contains(x),
    ensures
        all_prereqs(entries).contains(x),
    decreases entries.len(),
{
    let rest = entries.drop_last();
    let tail = ids_view(entries.last().1@);
    if entries.last().0@ == id {
        let k = choose|k: int| 0 <= k < tail.len() && tail[k] == x;
        assert((all_prereqs(rest) + tail)[all_prereqs(rest).len() + k] == x);
    } else {
        lemma_prereqs_in_universe(rest, id, x);
        let k = choose|k: int| 0 <= k < all_prereqs(rest).len() && all_prereqs(rest)[k] == x;
        assert((all_prereqs(rest) + tail)[k] == x);
    }
}

proof fn lemma_lookup_has_index(entries: Seq<(String, Vec<String>)>, id: Seq<char>) -> (i: int)
    requires
        lookup(entries, id) is Some,
    ensures
        0 <= i < entries.len(),
        entries[i].0@ == id,
    decreases entries.len(),
{
    if entries.last().0@ == id {
        entries.len() - 1
    } else {
        lemma_lookup_has_index(entries.drop_last(), id)
    }
}

/// A walk allowed more steps reaches at least as far.
proof fn lemma_reaches_more_steps(graph: DependencyGraph, a: Seq<char>, b: Seq<char>, k: nat, m: nat)
    requires
        reaches(graph, a, b, k),
        k <= m,
    ensures
        reaches(graph, a, b, m),
    decreases k,
{
    if !prereqs(graph, a).contains(b) {
        let c = choose|c: Seq<char>|
            #[trigger] prereqs(graph, a).contains(c) && reaches(graph, c, b, (k - 1) as nat);
        lemma_reaches_more_steps(graph, c, b, (k - 1) as nat, (m - 1) as nat);
        assert(prereqs(graph, a).contains(c) && reaches(graph, c, b, (m - 1) as nat));
    }
}

/// Two walks chain into one.
proof fn lemma_reaches_chain(
    graph: DependencyGraph,
    a: Seq<char>,
    b: Seq<char>,
    c: Seq<char>,
    k1: nat,
    k2: nat,
)
    requires
        reaches(graph, a, b, k1),
        reaches(graph, b, c, k2),
    ensures
        reaches(graph, a, c, k1 + k2),
    decreases k1,
{
    if prereqs(graph, a).contains(b) {
        lemma_reaches_more_steps(graph, b, c, k2, (k1 + k2 - 1) as nat);
        assert(prereqs(graph, a).contains(b) && reaches(graph, b, c, (k1 + k2 - 1) as nat));
    } else {
        let d = choose|d: Seq<char>|
            #[trigger] prereqs(graph, a).contains(d) && reaches(graph, d, b, (k1 - 1) as nat);
        lemma_reaches_chain(graph, d, b, c, (k1 - 1) as nat, k2);
        assert(prereqs(graph, a).contains(d) && reaches(graph, d, c, (k1 + k2 - 1) as nat));
    }
}

proof fn lemma_reachable_chain(graph: DependencyGraph, a: Seq<char>, b: Seq<char>, c: Seq<char>)
    requires
        reachable(graph, a, b),
        reachable(graph, b, c),
    ensures
        reachable(graph, a, c),
{
    let k1 = choose|k: nat| #[trigger] reaches(graph, a, b, k);
    let k2 = choose|k: nat| #[trigger] reaches(graph, b, c, k);
    lemma_reaches_chain(graph, a, b, c, k1, k2);
}

proof fn lemma_edge_reachable(graph: DependencyGraph, a: Seq<char>, b: Seq<char>)
    requires
        prereqs(graph, a).contains(b),
    ensures
        reachable(graph, a, b),
{
    assert(reaches(graph, a, b, 1));
}

/// A set that holds the prerequisites of `a` and is closed under prerequisite
/// edges holds everything reachable from `a`.
proof fn lemma_closed_holds_reachable(
    graph: DependencyGraph,
    set: Seq<Seq<char>>,
    a: Seq<char>,
    b: Seq<char>,
    k: nat,
)
    requires
        reaches(graph, a, b, k),
        forall|x: Seq<char>| #[trigger] prereqs(graph, a).contains(x) ==> set.contains(x),
        forall|y: Seq<char>, x: Seq<char>|
            set.contains(y) && #[trigger] prereqs(graph, y).contains(x) ==> set.contains(x),
    ensures
        set.contains(b),
    decreases k,
{
    if !prereqs(graph, a).contains(b) {
        let c = choose|c: Seq<char>|
            #[trigger] prereqs(graph, a).contains(c) && reaches(graph, c, b, (k - 1) as nat);
        lemma_closed_holds_reachable(graph, set, c, b, (k - 1) as nat);
    }
}

/// An unresolvable prerequisite is a leaf: a task with no entry of its own
/// reaches nothing, and so closes no loop.
pub proof fn lemma_unresolvable_is_a_leaf(graph: DependencyGraph, a: Seq<char>, b: Seq<char>)
    requires
        graph.entry(a) is None,
    ensures
        !reachable(graph, a, b),
{
    assert forall|k: nat| !#[trigger] reaches(graph, a, b, k) by {
        assert(prereqs(graph, a) =~= Seq::<Seq<char>>::empty());
    }
}

} // verus!

verus! {

/// A list of distinct ids drawn from a finite universe is no longer than it.
proof fn lemma_seen_fits(seen: Seq<String>, universe: Set<Seq<char>>)
    requires
        universe.finite(),
        ids_view(seen).no_duplicates(),
        forall|x: Seq<char>| #[trigger] ids_view(seen).contains(x) ==> universe.contains(x),
    ensures
        seen.len() <= universe.len(),
{
    ids_view(seen).unique_seq_to_set();
    assert(ids_view(seen).to_set().subset_of(universe));
    vstd::set_lib::lemma_len_subset(ids_view(seen).to_set(), universe);
}

impl DependencyGraph {
    /// The prerequisites of one task, or `None` when the id is unresolvable.
    fn prerequisites_of(&self, id: &String) -> (found: Option<&Vec<String>>)
        ensures
            match found {
                Some(p) => self.entry(id@) == Some(ids_view(p@)),
                None => self.entry(id@) is None,
            },
    {
        proof {
            use_type_invariant(self);
        }
        let mut i: usize = 0;
        while i < self.entries.len()
            invariant
                0 <= i <= self.entries.len(),
                forall|k: int| 0 <= k < i ==> (#[trigger] self.entries@[k]).0@ != id@,
                forall|a: int, b: int|
                    0 <= a < b < self.entries@.len() ==> (#[trigger] self.entries@[a]).0@
                        != (#[trigger] self.entries@[b]).0@,
            decreases self.entries.len() - i,
        {
            if self.entries[i].0.eq(id) {
                proof {
                    lemma_lookup_found(self.entries@, id@, i as int);
                }
                return Some(&self.entries[i].1);
            }
            i = i + 1;
        }
        proof {
            lemma_lookup_missing(self.entries@, id@);
        }
        None
    }

    /// Every task reachable from `start` by following prerequisite edges,
    /// each once.
    fn closure_of(&self, start: &String) -> (seen: Vec<String>)
        ensures
            ids_view(seen@).no_duplicates(),
            forall|t: Seq<char>| #[trigger] has_id(seen@, t) <==> reachable(*self, start@, t),
    {
        let ghost graph = *self;
        let ghost universe = all_prereqs(self.entries@).to_set();
        let mut seen: Vec<String> = Vec::new();
        match self.prerequisites_of(start) {
            Some(first) => {
                add_unseen(&mut seen, first);
            },
            None => {},
        }
        proof {
            assert forall|x: Seq<char>|
                #[trigger] ids_view(seen@).contains(x) implies universe.contains(x) && reachable(
                graph,
                start@,
                x,
            ) by {
                lemma_prereqs_in_universe(self.entries@, start@, x);
                lemma_edge_reachable(graph, start@, x);
            }
        }
        let mut i: usize = 0;
        while i < seen.len()
            invariant
                graph == *self,
                universe == all_prereqs(self.entries@).to_set(),
                0 <= i <= seen.len(),
                ids_view(seen@).no_duplicates(),
                forall|x: Seq<char>|
                    #[trigger] ids_view(seen@).contains(x) ==> universe.contains(x) && reachable(
                        graph,
                        start@,
                        x,
                    ),
                forall|x: Seq<char>|
                    #[trigger] prereqs(graph, start@).contains(x) ==> ids_view(seen@).contains(x),
                forall|j: int, x: Seq<char>|
                    0 <= j < i && #[trigger] prereqs(graph, seen@[j]@).contains(x) ==> ids_view(
                        seen@,
                    ).contains(x),
            decreases universe.len() - i,
        {
            proof {
                lemma_seen_fits(seen@, universe);
            }
            let ghost before = seen@;
            let id = seen[i].clone();
            proof {
                assert(ids_view(before)[i as int] == id@);
                assert(ids_view(before).contains(id@));
                assert(reachable(graph, start@, id@));
            }
            match self.prerequisites_of(&id) {
                Some(next) => {
                    add_unseen(&mut seen, next);
                    proof {
                        assert forall|x: Seq<char>|
                            #[trigger] ids_view(seen@).contains(x) implies universe.contains(x)
                            && reachable(graph, start@, x) by {
                            if !ids_view(before).contains(x) {
                                lemma_prereqs_in_universe(self.entries@, id@, x);
                                lemma_edge_reachable(graph, id@, x);
                                lemma_reachable_chain(graph, start@, id@, x);
                            }
                        }
                    }
                },
                None => {},
            }
            proof {
                assert forall|j: int, x: Seq<char>|
                    0 <= j < i + 1 && #[trigger] prereqs(graph, seen@[j]@).contains(x) implies ids_view(
                    seen@,
                ).contains(x) by {
                    assert(seen@[j] == before[j]) by {
                        assert(seen@.subrange(0, before.len() as int)[j] == before[j]);
                    }
                }
            }
            i = i + 1;
        }
        proof {
            let set = ids_view(seen@);
            assert forall|y: Seq<char>, x: Seq<char>|
                set.contains(y) && #[trigger] prereqs(graph, y).contains(x) implies set.contains(x) by {
                let j = choose|j: int| 0 <= j < set.len() && set[j] == y;
                assert(prereqs(graph, seen@[j]@).contains(x));
            }
            assert forall|t: Seq<char>| #[trigger] has_id(seen@, t) <==> reachable(graph, start@, t) by {
                if reachable(graph, start@, t) {
                    let n = choose|n: nat| #[trigger] reaches(graph, start@, t, n);
                    lemma_closed_holds_reachable(graph, set, start@, t, n);
                }
            }
        }
        seen
    }
}

} // verus!

verus! {

/// Every task reachable from `start` by following prerequisite edges — the
/// transitive prerequisites of `start`, each once.
///
/// `start` itself is included only when a cycle leads back to it.
pub fn transitive_prerequisites(graph: &DependencyGraph, start: &str) -> (found: Vec<String>)
    ensures
        ids_view(found@).no_duplicates(),
        forall|t: Seq<char>| #[trigger] has_id(found@, t) <==> reachable(*graph, start@, t),
{
    let start = start.to_owned();
    graph.closure_of(&start)
}

/// Every task that reaches `target` by following prerequisite edges — the
/// transitive dependents of `target`, each once.
///
/// This is the cull set for choosing a new prerequisite of `target`: adding the
/// edge `target → candidate` closes a loop exactly when `candidate` is one of
/// these, or `target` itself.
pub fn transitive_dependents(graph: &DependencyGraph, target: &str) -> (found: Vec<String>)
    ensures
        ids_view(found@).no_duplicates(),
        forall|t: Seq<char>| #[trigger] has_id(found@, t) <==> reachable(*graph, t, target@),
{
    proof {
        use_type_invariant(graph);
    }
    let target = target.to_owned();
    let mut found: Vec<String> = Vec::new();
    let mut i: usize = 0;
    while i < graph.entries.len()
        invariant
            0 <= i <= graph.entries.len(),
            forall|a: int, b: int|
                0 <= a < b < graph.entries@.len() ==> (#[trigger] graph.entries@[a]).0@
                    != (#[trigger] graph.entries@[b]).0@,
            ids_view(found@).no_duplicates(),
            forall|t: Seq<char>|
                #[trigger] ids_view(found@).contains(t) <==> exists|k: int|
                    0 <= k < i && (#[trigger] graph.entries@[k]).0@ == t && reachable(
                        *graph,
                        t,
                        target@,
                    ),
        decreases graph.entries.len() - i,
    {
        let key = &graph.entries[i].0;
        let reached = graph.closure_of(key);
        let hit = contains_id(reached.as_slice(), &target);
        let ghost before = found@;
        if hit {
            found.push(key.clone());
            proof {
                assert(ids_view(found@) =~= ids_view(before).push(key@));
                assert forall|a: int, b: int|
                    0 <= a < b < ids_view(found@).len() implies ids_view(found@)[a] != ids_view(
                    found@,
                )[b] by {
                    if b == before.len() {
                        assert(ids_view(before).contains(ids_view(found@)[a]));
                        let k = choose|k: int|
                            0 <= k < i && (#[trigger] graph.entries@[k]).0@ == ids_view(found@)[a]
                                && reachable(*graph, ids_view(found@)[a], target@);
                    } else {
                        assert(ids_view(before)[a] == ids_view(found@)[a]);
                        assert(ids_view(before)[b] == ids_view(found@)[b]);
                    }
                }
            }
        }
        proof {
            assert forall|t: Seq<char>|
                #[trigger] ids_view(found@).contains(t) <==> exists|k: int|
                    0 <= k < i + 1 && (#[trigger] graph.entries@[k]).0@ == t && reachable(
                        *graph,
                        t,
                        target@,
                    ) by {
                if hit {
                    lemma_push_contains(ids_view(before), key@, t);
                }
                if t == key@ && reachable(*graph, t, target@) {
                    assert(graph.entries@[i as int].0@ == t);
                }
            }
        }
        i = i + 1;
    }
    proof {
        assert forall|t: Seq<char>| #[trigger] has_id(found@, t) <==> reachable(*graph, t, target@) by {
            if reachable(*graph, t, target@) {
                let n = choose|n: nat| #[trigger] reaches(*graph, t, target@, n);
                if graph.entry(t) is None {
                    lemma_unresolvable_is_a_leaf(*graph, t, target@);
                }
                let k = lemma_lookup_has_index(graph.entries@, t);
            }
        }
    }
    found
}

/// Would making `dependent` depend on `prerequisite` introduce a cycle?
///
/// True when the two are the same task, or `prerequisite` already reaches
/// `dependent` through the graph, so the new edge would close a loop.
pub fn introduces_cycle(graph: &DependencyGraph, dependent: &str, prerequisite: &str) -> (closes: bool)
    ensures
        closes == (dependent@ == prerequisite@ || reachable(*graph, prerequisite@, dependent@)),
{
    let dependent = dependent.to_owned();
    let prerequisite = prerequisite.to_owned();
    if dependent == prerequisite {
        return true;
    }
    let reached = graph.closure_of(&prerequisite);
    contains_id(reached.as_slice(), &dependent)
}

/// Does the graph already contain a cycle among any of its tasks?
///
/// A graph has a cycle exactly when some task is among its own transitive
/// prerequisites.
pub fn has_cycle(graph: &DependencyGraph) -> (cyclic: bool)
    ensures
        cyclic == is_cyclic(*graph),
{
    proof {
        use_type_invariant(graph);
    }
    let mut i: usize = 0;
    while i < graph.entries.len()
        invariant
            0 <= i <= graph.entries.len(),
            forall|k: int| 0 <= k < i ==> !reachable(*graph, #[trigger] graph.entries@[k].0@, graph.entries@[k].0@),
        decreases graph.entries.len() - i,
    {
        let key = &graph.entries[i].0;
        let reached = graph.closure_of(key);
        if contains_id(reached.as_slice(), key) {
            return true;
        }
        i = i + 1;
    }
    proof {
        assert forall|id: Seq<char>| !#[trigger] reachable(*graph, id, id) by {
            if reachable(*graph, id, id) {
                if graph.entry(id) is None {
                    lemma_unresolvable_is_a_leaf(*graph, id, id);
                }
                let k = lemma_lookup_has_index(graph.entries@, id);
                assert(!reachable(*graph, graph.entries@[k].0@, graph.entries@[k].0@));
            }
        }
    }
    false
}

} // verus!

verus! {

/// `after` is `before` with the one edge `dependent → prerequisite` added.
pub open spec fn adds_edge(
    before: DependencyGraph,
    after: DependencyGraph,
    dependent: Seq<char>,
    prerequisite: Seq<char>,
) -> bool {
    &&& after.entry(dependent) == Some(prereqs(before, dependent).push(prerequisite))
    &&& forall|id: Seq<char>| id != dependent ==> #[trigger] after.entry(id) == before.entry(id)
}

proof fn lemma_edges_after(
    before: DependencyGraph,
    after: DependencyGraph,
    d: Seq<char>,
    p: Seq<char>,
    y: Seq<char>,
    x: Seq<char>,
)
    requires
        adds_edge(before, after, d, p),
    ensures
        prereqs(after, y).contains(x) <==> prereqs(before, y).contains(x) || (y == d && x == p),
{
    if y == d {
        lemma_push_contains(prereqs(before, d), p, x);
    } else {
        assert(after.entry(y) == before.entry(y));
    }
}

proof fn lemma_more_edges_reach_further(
    before: DependencyGraph,
    after: DependencyGraph,
    d: Seq<char>,
    p: Seq<char>,
    a: Seq<char>,
    b: Seq<char>,
    k: nat,
)
    requires
        adds_edge(before, after, d, p),
        reaches(before, a, b, k),
    ensures
        reaches(after, a, b, k),
    decreases k,
{
    lemma_edges_after(before, after, d, p, a, b);
    if !prereqs(before, a).contains(b) {
        let c = choose|c: Seq<char>|
            #[trigger] prereqs(before, a).contains(c) && reaches(before, c, b, (k - 1) as nat);
        lemma_more_edges_reach_further(before, after, d, p, c, b, (k - 1) as nat);
        lemma_edges_after(before, after, d, p, a, c);
        assert(prereqs(after, a).contains(c) && reaches(after, c, b, (k - 1) as nat));
    }
}

/// A walk in the graph with the new edge either stays in the old graph, or
/// runs into `d`, takes the new edge, and goes on from `p` in the old graph.
proof fn lemma_split_at_new_edge(
    before: DependencyGraph,
    after: DependencyGraph,
    d: Seq<char>,
    p: Seq<char>,
    a: Seq<char>,
    b: Seq<char>,
    k: nat,
)
    requires
        adds_edge(before, after, d, p),
        reaches(after, a, b, k),
    ensures
        reachable(before, a, b) || ((p == b || reachable(before, p, b)) && (a == d || reachable(
            after,
            a,
            d,
        ))),
    decreases k,
{
    lemma_edges_after(before, after, d, p, a, b);
    if prereqs(after, a).contains(b) {
        if prereqs(before, a).contains(b) {
            lemma_edge_reachable(before, a, b);
        }
    } else {
        let c = choose|c: Seq<char>|
            #[trigger] prereqs(after, a).contains(c) && reaches(after, c, b, (k - 1) as nat);
        lemma_split_at_new_edge(before, after, d, p, c, b, (k - 1) as nat);
        lemma_edges_after(before, after, d, p, a, c);
        lemma_edge_reachable(after, a, c);
        if reachable(before, c, b) {
            if prereqs(before, a).contains(c) {
                lemma_edge_reachable(before, a, c);
                lemma_reachable_chain(before, a, c, b);
            }
        } else if c != d {
            lemma_reachable_chain(after, a, c, d);
        }
    }
}

/// Adding the edge `dependent → prerequisite` to a graph without cycles makes
/// it cyclic exactly when [`introduces_cycle`] says it would: when the two are
/// the same task, or `prerequisite` already reaches `dependent`.
pub proof fn lemma_introduces_cycle_is_exact(
    before: DependencyGraph,
    after: DependencyGraph,
    dependent: Seq<char>,
    prerequisite: Seq<char>,
)
    requires
        !is_cyclic(before),
        adds_edge(before, after, dependent, prerequisite),
    ensures
        is_cyclic(after) <==> (dependent == prerequisite || reachable(before, prerequisite, dependent)),
{
    let d = dependent;
    let p = prerequisite;
    lemma_edges_after(before, after, d, p, d, p);
    lemma_edge_reachable(after, d, p);
    if d == p {
        assert(reachable(after, d, d));
    } else if reachable(before, p, d) {
        let k = choose|k: nat| #[trigger] reaches(before, p, d, k);
        lemma_more_edges_reach_further(before, after, d, p, p, d, k);
        lemma_reachable_chain(after, d, p, d);
        assert(reachable(after, d, d));
    }
    if is_cyclic(after) {
        let x = choose|x: Seq<char>| #[trigger] reachable(after, x, x);
        let k = choose|k: nat| #[trigger] reaches(after, x, x, k);
        lemma_split_at_new_edge(before, after, d, p, x, x, k);
        assert(!reachable(before, x, x));
        if x != d {
            let k2 = choose|k: nat| #[trigger] reaches(after, x, d, k);
            lemma_split_at_new_edge(before, after, d, p, x, d, k2);
            if reachable(before, x, d) && p != x {
                lemma_reachable_chain(before, p, x, d);
            }
        }
    }
}

/// A task's progress against its prerequisites: how many are satisfied, how
/// many there are, and whether it is still locked.
#[derive(Clone, Copy, Debug, Default, PartialEq, Eq, Structural)]
pub struct DependencyLock {
    /// Prerequisites already satisfied — completed, or unresolvable.
    pub done: usize,
    /// How many prerequisites the task lists.
    pub total: usize,
    /// Whether any prerequisite is still outstanding.
    pub locked: bool,
}

/// A prerequisite is satisfied when it is unknown on this device or completed.
pub open spec fn is_satisfied(id: Seq<char>, known: Seq<Seq<char>>, completed: Seq<Seq<char>>) -> bool {
    !known.contains(id) || completed.contains(id)
}

/// How many of `deps` are satisfied, counting repeats.
pub open spec fn satisfied_count(deps: Seq<Seq<char>>, known: Seq<Seq<char>>, completed: Seq<Seq<char>>) -> nat
    decreases deps.len(),
{
    if deps.len() == 0 {
        0
    } else {
        satisfied_count(deps.drop_last(), known, completed) + if is_satisfied(
            deps.last(),
            known,
            completed,
        ) {
            1nat
        } else {
            0nat
        }
    }
}

/// Reads a task's lock state from its prerequisite ids.
///
/// `known` lists the task ids that exist on this device; `completed` those of
/// them that are done. A prerequisite is satisfied iff it is absent from
/// `known` (unresolvable: a task deleted or not yet synced here) or present in
/// `completed`.
pub fn dependency_lock(depends_on: &[String], known: &[String], completed: &[String]) -> (lock: DependencyLock)
    ensures
        lock.total == depends_on@.len(),
        lock.done == satisfied_count(ids_view(depends_on@), ids_view(known@), ids_view(completed@)),
        lock.done <= lock.total,
        lock.locked == (lock.done < lock.total),
{
    let ghost deps = ids_view(depends_on@);
    let mut done: usize = 0;
    let mut i: usize = 0;
    while i < depends_on.len()
        invariant
            0 <= i <= depends_on.len(),
            deps == ids_view(depends_on@),
            done == satisfied_count(deps.subrange(0, i as int), ids_view(known@), ids_view(completed@)),
            done <= i,
        decreases depends_on.len() - i,
    {
        let id = &depends_on[i];
        let satisfied = !contains_id(known, id) || contains_id(completed, id);
        proof {
            assert(deps.subrange(0, i + 1).drop_last() =~= deps.subrange(0, i as int));
            assert(deps.subrange(0, i + 1).last() == id@);
        }
        if satisfied {
            done = done + 1;
        }
        i = i + 1;
    }
    proof {
        assert(deps.subrange(0, depends_on@.len() as int) =~= deps);
    }
    DependencyLock { done, total: depends_on.len(), locked: done < depends_on.len() }
}

} // verus!
