use mmorpg::spatial::{relevant_cells, SpatialGrid};

#[test]
fn relevant_cells_cover_the_square() {
    assert_eq!(relevant_cells((0, 0), 0), vec![(0, 0)]);
    assert_eq!(
        relevant_cells((2, -1), 1),
        vec![(1, -2), (1, -1), (1, 0), (2, -2), (2, -1), (2, 0), (3, -2), (3, -1), (3, 0)]
    );
    assert!(relevant_cells((5, 5), -1).is_empty());
    assert_eq!(relevant_cells((0, 0), 3).len(), 49);
}

#[test]
fn insert_fills_each_cell_once() {
    let mut grid = SpatialGrid::new();
    grid.insert(7, (0, 0), 1);
    grid.insert(9, (1, 1), 0);
    assert_eq!(grid.get_entities_in_cell((0, 0)), &[7]);
    assert_eq!(grid.get_entities_in_cell((1, 1)), &[7, 9]);
    assert_eq!(grid.get_entities_in_cell((-1, 1)), &[7]);
    assert!(grid.get_entities_in_cell((2, 2)).is_empty());
    let mut all = grid.get_all_cells();
    all.sort();
    assert_eq!(all.len(), 9);
    assert_eq!(all[0], (-1, -1));
    assert_eq!(all[8], (1, 1));
    assert_eq!(grid.get_entities_in_cells(&[(1, 1), (5, 5), (0, 0)]), vec![7, 9, 7]);
}

#[test]
fn negative_radius_and_clear() {
    let mut grid = SpatialGrid::default();
    grid.insert(3, (4, 4), -2);
    assert!(grid.get_all_cells().is_empty());
    grid.insert(3, (4, 4), 0);
    assert_eq!(grid.get_all_cells(), vec![(4, 4)]);
    grid.clear();
    assert!(grid.get_all_cells().is_empty());
    assert!(grid.get_entities_in_cell((4, 4)).is_empty());
}
