use github_webhook_type_generator::dag::{CoDirectedAcyclicGraph, DirectedAcyclicGraph};

#[test]
fn test_topo_sort() {
    let mut dag = DirectedAcyclicGraph::new();
    dag.add_edge("A", "B");
    dag.add_edge("A", "C");
    dag.add_edge("B", "D");
    dag.add_edge("C", "D");
    dag.add_edge("C", "E");
    dag.add_edge("D", "E");

    let topo_order = dag.topo_sort().unwrap();
    assert_eq!(topo_order, vec!["A", "C", "B", "D", "E"]);
}

#[test]
fn test_co_topo_sort() {
    let mut dag = CoDirectedAcyclicGraph::new();
    dag.add_edge("A", "B");
    dag.add_edge("A", "C");
    dag.add_edge("B", "D");
    dag.add_edge("C", "D");
    dag.add_edge("C", "E");
    dag.add_edge("D", "E");

    let topo_order = dag.co_topo_sort().unwrap();
    assert_eq!(topo_order, vec!["E", "D", "C", "B", "A"]);
}

#[test]
fn test_find_cycle() {
    let mut graph = DirectedAcyclicGraph::new();
    graph.add_edge(1, 2);
    graph.add_edge(2, 3);
    graph.add_edge(3, 4);
    graph.add_edge(4, 2);

    let cycle = graph.find_cycle();
    assert!(
        [vec![2, 3, 4], vec![3, 4, 2], vec![4, 2, 3],].contains(&cycle),
        "{cycle:?}"
    );

    graph.add_edge(1, 4);
    graph.add_edge(2, 5);
    graph.add_edge(3, 5);
    let cycle = graph.find_cycle();
    assert!(
        [vec![2, 3, 4], vec![3, 4, 2], vec![4, 2, 3],].contains(&cycle),
        "{cycle:?}"
    );
}

#[test]
fn topo_sort_reports_a_cycle() {
    let mut graph = DirectedAcyclicGraph::new();
    graph.add_edge(1, 2);
    graph.add_edge(2, 3);
    graph.add_edge(3, 1);
    graph.add_edge(0, 1);
    let cycle = graph.topo_sort().unwrap_err();
    assert!([vec![1, 2, 3], vec![2, 3, 1], vec![3, 1, 2]].contains(&cycle), "{cycle:?}");
}

#[test]
fn topo_sort_rejects_a_self_loop() {
    let mut graph = DirectedAcyclicGraph::new();
    graph.add_edge(7, 7);
    assert_eq!(graph.topo_sort(), Err(vec![7]));
}

#[test]
fn topo_sort_of_the_empty_graph_is_empty() {
    let graph: DirectedAcyclicGraph<usize> = DirectedAcyclicGraph::new();
    assert_eq!(graph.topo_sort(), Ok(vec![]));
}

#[test]
fn topo_sort_counts_a_repeated_edge_twice() {
    let mut graph = DirectedAcyclicGraph::new();
    graph.add_edge(1, 2);
    graph.add_edge(1, 2);
    graph.add_edge(2, 3);
    assert_eq!(graph.topo_sort(), Ok(vec![1, 2, 3]));
}

#[test]
fn topo_sort_takes_the_last_free_node_first() {
    let mut graph = DirectedAcyclicGraph::new();
    graph.add_node(1);
    graph.add_node(2);
    graph.add_node(3);
    assert_eq!(graph.topo_sort(), Ok(vec![3, 2, 1]));
}

#[test]
fn co_graph_lists_isolated_nodes() {
    let mut graph = CoDirectedAcyclicGraph::new();
    graph.add_node(5usize);
    graph.add_edge(1, 2);
    let order = graph.co_topo_sort().unwrap();
    assert_eq!(order, vec![2, 1, 5]);
}

#[test]
fn co_graph_default_is_empty() {
    let graph: CoDirectedAcyclicGraph<usize> = Default::default();
    assert_eq!(graph.co_topo_sort(), Ok(vec![]));
}

#[test]
fn a_cycle_witness_passes_no_node_twice() {
    let mut graph = DirectedAcyclicGraph::new();
    graph.add_edge(0, 1);
    graph.add_edge(1, 2);
    graph.add_edge(2, 1);
    graph.add_edge(2, 3);
    graph.add_edge(3, 1);
    graph.add_edge(3, 3);
    let simple = |cycle: &Vec<i32>| {
        !cycle.is_empty() && (0..cycle.len()).all(|i| (0..i).all(|j| cycle[i] != cycle[j]))
    };
    let cycle = graph.find_cycle();
    assert!(simple(&cycle), "{cycle:?}");
    assert!(!cycle.contains(&0), "{cycle:?}");
    let cycle = graph.topo_sort().unwrap_err();
    assert!(simple(&cycle), "{cycle:?}");
    assert!(!cycle.contains(&0), "{cycle:?}");
}
