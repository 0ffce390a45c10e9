use todo_domain::dependency::{
    dependency_lock, has_cycle, introduces_cycle, transitive_dependents,
    transitive_prerequisites, DependencyGraph, DependencyLock,
};

/// Builds a graph from `(task, [prerequisites])` pairs.
fn graph(edges: &[(&str, &[&str])]) -> DependencyGraph {
    let mut graph = DependencyGraph::new();
    for (id, deps) in edges {
        graph.insert(
            (*id).to_owned(),
            deps.iter().map(|dep| (*dep).to_owned()).collect(),
        );
    }
    graph
}

fn ids(found: &[String]) -> Vec<String> {
    let mut names: Vec<String> = found.to_vec();
    names.sort();
    names
}

fn set(members: &[&str]) -> Vec<String> {
    members.iter().map(|member| (*member).to_owned()).collect()
}

#[test]
fn transitive_prerequisites_follow_the_chain() {
    // a → b → c: a's prerequisites are b and c, transitively.
    let graph = graph(&[("a", &["b"]), ("b", &["c"]), ("c", &[])]);
    assert_eq!(ids(&transitive_prerequisites(&graph, "a")), vec!["b", "c"]);
    assert_eq!(ids(&transitive_prerequisites(&graph, "b")), vec!["c"]);
    assert!(transitive_prerequisites(&graph, "c").is_empty());
}

#[test]
fn an_unresolvable_prerequisite_is_a_leaf() {
    // b is listed but has no entry of its own (deleted / not synced). It is a
    // leaf: reachable, but leads nowhere and closes no loop.
    let graph = graph(&[("a", &["b"])]);
    assert_eq!(ids(&transitive_prerequisites(&graph, "a")), vec!["b"]);
    assert!(!has_cycle(&graph));
}

#[test]
fn a_direct_back_edge_is_a_cycle() {
    // a depends on b; adding b → a would close the two-task loop.
    let graph = graph(&[("a", &["b"]), ("b", &[])]);
    assert!(introduces_cycle(&graph, "b", "a"));
    // The other direction is the edge that already exists — no new loop.
    assert!(!introduces_cycle(&graph, "a", "b"));
}

#[test]
fn a_transitive_back_edge_is_a_cycle() {
    // a → b → c. Making a a prerequisite of c (c → a) closes a → b → c → a.
    let graph = graph(&[("a", &["b"]), ("b", &["c"]), ("c", &[])]);
    assert!(introduces_cycle(&graph, "c", "a"));
    // Adding a → c directly is redundant with the chain, not a cycle.
    assert!(!introduces_cycle(&graph, "a", "c"));
}

#[test]
fn depending_on_self_is_always_a_cycle() {
    let graph = graph(&[("a", &[])]);
    assert!(introduces_cycle(&graph, "a", "a"));
}

#[test]
fn an_unrelated_prerequisite_closes_no_loop() {
    // Two separate chains: joining across them never cycles.
    let graph = graph(&[("a", &["b"]), ("b", &[]), ("x", &["y"]), ("y", &[])]);
    assert!(!introduces_cycle(&graph, "a", "x"));
    assert!(!introduces_cycle(&graph, "b", "y"));
}

#[test]
fn transitive_dependents_are_the_cull_set() {
    // a → b → c. c's dependents are a and b.
    let graph = graph(&[("a", &["b"]), ("b", &["c"]), ("c", &[])]);
    assert_eq!(ids(&transitive_dependents(&graph, "c")), vec!["a", "b"]);
    assert_eq!(ids(&transitive_dependents(&graph, "b")), vec!["a"]);
    assert!(transitive_dependents(&graph, "a").is_empty());
    // The cull set is exactly the candidates that introduce a cycle.
    for candidate in ["a", "b"] {
        assert!(introduces_cycle(&graph, "c", candidate));
    }
}

#[test]
fn has_cycle_reads_the_whole_graph() {
    let acyclic = graph(&[("a", &["b"]), ("b", &["c"]), ("c", &[])]);
    assert!(!has_cycle(&acyclic));

    // a → b → a is a cycle no single task's self-check would catch.
    let cyclic = graph(&[("a", &["b"]), ("b", &["a"])]);
    assert!(has_cycle(&cyclic));

    // A longer loop, and a self-loop.
    let long = graph(&[("a", &["b"]), ("b", &["c"]), ("c", &["a"])]);
    assert!(has_cycle(&long));
    let selfish = graph(&[("a", &["a"])]);
    assert!(has_cycle(&selfish));
}

#[test]
fn lock_is_open_when_every_prerequisite_is_done() {
    let known = set(&["a", "b", "c"]);
    let completed = set(&["b", "c"]);
    let lock = dependency_lock(&["b".to_owned(), "c".to_owned()], &known, &completed);
    assert_eq!(
        lock,
        DependencyLock {
            done: 2,
            total: 2,
            locked: false,
        }
    );
}

#[test]
fn lock_holds_while_a_prerequisite_is_pending() {
    let known = set(&["a", "b", "c"]);
    let completed = set(&["b"]);
    let lock = dependency_lock(&["b".to_owned(), "c".to_owned()], &known, &completed);
    assert_eq!(
        lock,
        DependencyLock {
            done: 1,
            total: 2,
            locked: true,
        }
    );
}

#[test]
fn an_unresolvable_prerequisite_counts_as_satisfied() {
    // "ghost" is not in `known`: it is satisfied, not blocking.
    let known = set(&["a"]);
    let completed: Vec<String> = Vec::new();
    let lock = dependency_lock(&["ghost".to_owned()], &known, &completed);
    assert_eq!(
        lock,
        DependencyLock {
            done: 1,
            total: 1,
            locked: false,
        }
    );

    // Mixed: one real pending prerequisite still locks even beside a
    // satisfied ghost.
    let known = set(&["a", "real"]);
    let lock = dependency_lock(&["ghost".to_owned(), "real".to_owned()], &known, &completed);
    assert_eq!(
        lock,
        DependencyLock {
            done: 1,
            total: 2,
            locked: true,
        }
    );
}

#[test]
fn a_task_with_no_prerequisites_is_never_locked() {
    let lock = dependency_lock(&[], &[], &[]);
    assert_eq!(lock, DependencyLock::default());
    assert!(!lock.locked);
}

#[test]
fn a_prerequisite_reached_twice_is_listed_once() {
    // a depends on b and c, both of which depend on d: d is one prerequisite.
    let graph = graph(&[("a", &["b", "c"]), ("b", &["d"]), ("c", &["d"]), ("d", &[])]);
    assert_eq!(ids(&transitive_prerequisites(&graph, "a")), vec!["b", "c", "d"]);
    assert!(!has_cycle(&graph));
    // Closing the diamond from the bottom is a cycle.
    assert!(introduces_cycle(&graph, "d", "a"));
}
