use solver_grid::{Cell, Grid, Point, WalkableGrid};

const CELLS: [Cell; 5] = [Cell::Empty, Cell::Color1, Cell::Color2, Cell::Color3, Cell::Color4];

#[test]
fn cell_above_the_threshold_is_not_walkable_until_the_threshold_is_raised() {
    let mut grid = Grid::create_empty(5, 5);
    let p = Point { x: 2, y: 3 };
    grid.set_cell(&p, Cell::Color3);
    let mut walkable = WalkableGrid::create(grid, Cell::Color2);

    assert!(!walkable.is_cell_walkable(&p));

    walkable.set_walkable(Cell::Color3);
    assert!(walkable.is_cell_walkable(&p));

    walkable.set_walkable(Cell::Color4);
    assert!(walkable.is_cell_walkable(&p));

    walkable.set_walkable(Cell::Color2);
    assert!(!walkable.is_cell_walkable(&p));
}

#[test]
fn walkable_means_ordinal_at_most_the_threshold() {
    let p = Point { x: 1, y: 1 };
    for cell in CELLS {
        for threshold in CELLS {
            let mut grid = Grid::create_empty(3, 3);
            grid.set_cell(&p, cell);
            let walkable = WalkableGrid::create(grid, threshold);

            assert_eq!(walkable.is_cell_walkable(&p), cell.ordinal() <= threshold.ordinal());
        }
    }
}

#[test]
fn empty_cells_are_walkable_under_every_threshold() {
    for threshold in CELLS {
        let walkable = WalkableGrid::create(Grid::create_empty(3, 3), threshold);
        for p in walkable.grid.iter() {
            assert!(walkable.is_cell_walkable(&p));
        }
    }
}

#[test]
fn outside_the_grid_is_always_walkable() {
    let mut grid = Grid::create_empty(4, 3);
    for p in grid.iter() {
        grid.set_cell(&p, Cell::Color4);
    }
    for threshold in CELLS {
        let walkable = WalkableGrid::create(grid.clone(), threshold);
        for x in -128i16..=127 {
            for y in -128i16..=127 {
                let p = Point { x: x as i8, y: y as i8 };
                if !walkable.is_inside(&p) {
                    assert!(walkable.is_cell_walkable(&p));
                }
            }
        }
        assert!(walkable.is_cell_walkable(&Point { x: 4, y: 0 }));
        assert!(walkable.is_cell_walkable(&Point { x: 0, y: 3 }));
        assert!(walkable.is_cell_walkable(&Point { x: -1, y: 0 }));
        assert!(walkable.is_cell_walkable(&Point { x: 0, y: -1 }));
    }
}

#[test]
fn outside_of_an_empty_grid_is_walkable() {
    let walkable = WalkableGrid::create(Grid::create_empty(0, 0), Cell::Empty);

    assert!(walkable.is_cell_walkable(&Point { x: 0, y: 0 }));
}

#[test]
fn set_walkable_leaves_the_cells_as_they_are() {
    let mut grid = Grid::create_empty(4, 4);
    grid.set_cell(&Point { x: 0, y: 0 }, Cell::Color1);
    grid.set_cell(&Point { x: 3, y: 2 }, Cell::Color4);
    let mut walkable = WalkableGrid::create(grid, Cell::Empty);
    let points = walkable.grid.iter();
    let before: Vec<Cell> = points.iter().map(|p| walkable.get_cell(p)).collect();
    let stored = walkable.grid.cells.clone();

    for threshold in CELLS {
        walkable.set_walkable(threshold);
        let after: Vec<Cell> = points.iter().map(|p| walkable.get_cell(p)).collect();
        assert_eq!(after, before);
        assert_eq!(walkable.grid.cells, stored);
        assert_eq!(walkable.grid.width, 4);
        assert_eq!(walkable.grid.height, 4);
    }
}

#[test]
fn set_walkable_takes_effect_at_once() {
    let mut grid = Grid::create_empty(2, 1);
    let low = Point { x: 0, y: 0 };
    let high = Point { x: 1, y: 0 };
    grid.set_cell(&low, Cell::Color1);
    grid.set_cell(&high, Cell::Color4);
    let mut walkable = WalkableGrid::create(grid, Cell::Empty);

    assert_eq!((walkable.is_cell_walkable(&low), walkable.is_cell_walkable(&high)), (false, false));
    walkable.set_walkable(Cell::Color1);
    assert_eq!((walkable.is_cell_walkable(&low), walkable.is_cell_walkable(&high)), (true, false));
    walkable.set_walkable(Cell::Color4);
    assert_eq!((walkable.is_cell_walkable(&low), walkable.is_cell_walkable(&high)), (true, true));
    walkable.set_walkable(Cell::Empty);
    assert_eq!((walkable.is_cell_walkable(&low), walkable.is_cell_walkable(&high)), (false, false));
}

#[test]
fn create_keeps_the_grid_and_the_threshold() {
    let mut grid = Grid::create_empty(3, 2);
    grid.set_cell(&Point { x: 2, y: 1 }, Cell::Color2);
    let walkable = WalkableGrid::create(grid.clone(), Cell::Color1);

    assert_eq!(walkable.walkable, Cell::Color1);
    assert_eq!(walkable.grid.width, 3);
    assert_eq!(walkable.grid.height, 2);
    assert_eq!(walkable.grid.cells, grid.cells);
}

#[test]
fn queries_delegate_to_the_grid() {
    let mut grid = Grid::create_empty(6, 4);
    grid.set_cell(&Point { x: 5, y: 3 }, Cell::Color3);
    let walkable = WalkableGrid::create(grid.clone(), Cell::Color1);

    for x in -10i8..=10 {
        for y in -10i8..=10 {
            let p = Point { x, y };
            assert_eq!(walkable.is_inside(&p), grid.is_inside(&p));
            for m in [-2i8, -1, 0, 1, 3] {
                assert_eq!(walkable.is_inside_margin(&p, m), grid.is_inside_margin(&p, m));
            }
            if grid.is_inside(&p) {
                assert_eq!(walkable.get_cell(&p), grid.get_cell(&p));
            }
        }
    }
    assert_eq!(walkable.get_cell(&Point { x: 5, y: 3 }), Cell::Color3);
}

#[test]
fn cells_can_be_written_through_the_wrapped_grid() {
    let mut walkable = WalkableGrid::create(Grid::create_empty(3, 3), Cell::Color1);
    let p = Point { x: 1, y: 1 };

    assert!(walkable.is_cell_walkable(&p));
    walkable.grid.set_cell(&p, Cell::Color2);
    assert!(!walkable.is_cell_walkable(&p));
    assert_eq!(walkable.get_cell(&p), Cell::Color2);
}

#[test]
fn clone_copies_the_grid_and_the_threshold() {
    let mut grid = Grid::create_empty(3, 3);
    let p = Point { x: 2, y: 2 };
    grid.set_cell(&p, Cell::Color2);
    let walkable = WalkableGrid::create(grid, Cell::Color1);

    let mut copy = walkable.clone();
    assert_eq!(copy.walkable, Cell::Color1);
    assert_eq!(copy.grid.cells, walkable.grid.cells);
    assert!(!copy.is_cell_walkable(&p));

    copy.set_walkable(Cell::Color2);
    copy.grid.set_cell(&Point { x: 0, y: 0 }, Cell::Color4);
    assert!(copy.is_cell_walkable(&p));
    assert!(!walkable.is_cell_walkable(&p));
    assert_eq!(walkable.get_cell(&Point { x: 0, y: 0 }), Cell::Empty);
}
