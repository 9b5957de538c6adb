use engine_core::grid::build_topology;

#[test]
fn grid_construction_sizes() {
    let g = build_topology(5, 4);
    assert_eq!(g.pinned.len(), 20);
    // Springs: (cols-1)*rows + cols*(rows-1) = 4*4 + 5*3 = 16+15 = 31.
    assert_eq!(g.springs.len(), 31);
}

#[test]
fn border_nodes_are_pinned() {
    let g = build_topology(3, 3);
    // First node is a corner, must be pinned.
    assert!(g.pinned[0]);
    // Middle node (index 4 in 3x3) must be free.
    assert!(!g.pinned[4]);
}

#[test]
fn springs_join_right_then_down_neighbours() {
    let g = build_topology(2, 2);
    assert_eq!(g.springs, vec![(0, 1), (0, 2), (1, 3), (2, 3)]);
    assert_eq!(g.pinned, vec![true, true, true, true]);
}

#[test]
fn spring_count_matches_formula_on_wide_grid() {
    let g = build_topology(7, 2);
    assert_eq!(g.springs.len(), (7 - 1) * 2 + 7 * (2 - 1));
    let interior = g.pinned.iter().filter(|p| !**p).count();
    assert_eq!(interior, 0);
    let g = build_topology(4, 4);
    let interior = g.pinned.iter().filter(|p| !**p).count();
    assert_eq!(interior, 4);
}
