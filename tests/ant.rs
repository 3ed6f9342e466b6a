use langtons_ant::{Ant, AntError, Direction, Grid};

fn cell(grid: &[u8], size: usize, x: usize, y: usize) -> u8 {
    grid[y * size + x]
}

#[test]
fn new_starts_in_the_middle_facing_up() {
    let a = Ant::new(5).unwrap();
    assert_eq!(a.x(), 2);
    assert_eq!(a.y(), 2);
    assert_eq!(a.direction(), 0);
    let b = Ant::new(4).unwrap();
    assert_eq!((b.x(), b.y()), (2, 2));
}

#[test]
fn zero_size_is_rejected() {
    assert!(matches!(Ant::new(0), Err(AntError::InvalidSize)));
    assert!(matches!(Grid::new(0), Err(AntError::InvalidSize)));
}

#[test]
fn concrete_trace_on_a_three_by_three_grid() {
    let mut a = Ant::new(3).unwrap();
    assert_eq!((a.x(), a.y(), a.direction()), (1, 1, 0));

    let g = a.step();
    assert_eq!(g, vec![0, 0, 0, 0, 1, 0, 0, 0, 0]);
    assert_eq!(a.direction(), 1);
    assert_eq!((a.x(), a.y()), (2, 1));

    let g = a.step();
    assert_eq!(cell(&g, 3, 2, 1), 1);
    assert_eq!(g, vec![0, 0, 0, 0, 1, 1, 0, 0, 0]);
    assert_eq!(a.direction(), 2);
    assert_eq!((a.x(), a.y()), (2, 2));

    let g = a.step();
    assert_eq!(cell(&g, 3, 2, 2), 1);
    assert_eq!(g, vec![0, 0, 0, 0, 1, 1, 0, 0, 1]);
    assert_eq!(a.direction(), 3);
    assert_eq!((a.x(), a.y()), (1, 2));

    let g = a.step();
    assert_eq!(cell(&g, 3, 1, 2), 1);
    assert_eq!(g, vec![0, 0, 0, 0, 1, 1, 0, 1, 1]);
    assert_eq!(a.direction(), 0);
    assert_eq!((a.x(), a.y()), (1, 1));
}

#[test]
fn fifth_step_turns_left_on_a_black_cell() {
    let mut a = Ant::new(3).unwrap();
    for _ in 0..4 {
        a.step();
    }
    // (1,1) is black now: turn counter-clockwise from Up to Left and clear it.
    let g = a.step();
    assert_eq!(cell(&g, 3, 1, 1), 0);
    assert_eq!(a.direction(), 3);
    assert_eq!((a.x(), a.y()), (0, 1));
}

#[test]
fn snapshot_length_never_changes() {
    for size in [1usize, 2, 3, 7, 10] {
        let mut a = Ant::new(size).unwrap();
        for _ in 0..200 {
            assert_eq!(a.step().len(), size * size);
        }
    }
}

#[test]
fn each_step_flips_exactly_the_cell_under_the_ant() {
    let size = 6;
    let mut a = Ant::new(size).unwrap();
    let mut before = vec![0u8; size * size];
    for _ in 0..500 {
        let (x, y) = (a.x(), a.y());
        let after = a.step();
        for i in 0..size * size {
            if i == y * size + x {
                assert_eq!(after[i], 1 - before[i]);
            } else {
                assert_eq!(after[i], before[i]);
            }
        }
        before = after;
    }
}

#[test]
fn position_and_direction_stay_in_range() {
    for size in [1usize, 2, 5, 11] {
        let mut a = Ant::new(size).unwrap();
        for _ in 0..1000 {
            let g = a.step();
            assert!(a.x() < size);
            assert!(a.y() < size);
            assert!(a.direction() < 4);
            assert!(g.iter().all(|&c| c == 0 || c == 1));
        }
    }
}

#[test]
fn two_engines_of_one_size_agree() {
    let mut a = Ant::new(9).unwrap();
    let mut b = Ant::new(9).unwrap();
    for _ in 0..300 {
        let ga = a.step();
        let gb = b.step();
        assert_eq!(ga, gb);
        assert_eq!((a.x(), a.y(), a.direction()), (b.x(), b.y(), b.direction()));
    }
}

#[test]
fn a_single_cell_grid_holds_the_ant_in_place() {
    let mut a = Ant::new(1).unwrap();
    let expected_dirs = [1usize, 0, 1, 0];
    let expected_cell = [1u8, 0, 1, 0];
    for k in 0..4 {
        let g = a.step();
        assert_eq!((a.x(), a.y()), (0, 0));
        assert_eq!(a.direction(), expected_dirs[k]);
        assert_eq!(g, vec![expected_cell[k]]);
    }
}

#[test]
fn outward_moves_from_an_edge_are_clamped() {
    // Size 2: the ant starts at (1,1) on the right edge and turns Right on white.
    let mut a = Ant::new(2).unwrap();
    let g = a.step();
    assert_eq!(a.direction(), 1);
    assert_eq!((a.x(), a.y()), (1, 1));
    assert_eq!(g, vec![0, 0, 0, 1]);
    // On black it turns Up and moves, since the top edge is not yet reached.
    let g = a.step();
    assert_eq!(a.direction(), 0);
    assert_eq!((a.x(), a.y()), (1, 0));
    assert_eq!(g, vec![0, 0, 0, 0]);
    // On white it turns Right at the right edge: x is held.
    let g = a.step();
    assert_eq!(a.direction(), 1);
    assert_eq!((a.x(), a.y()), (1, 0));
    assert_eq!(g, vec![0, 1, 0, 0]);
    // On black it turns Up at the top edge: y is held.
    let g = a.step();
    assert_eq!(a.direction(), 0);
    assert_eq!((a.x(), a.y()), (1, 0));
    assert_eq!(g, vec![0, 0, 0, 0]);
}

#[test]
fn returned_snapshot_is_independent() {
    let mut a = Ant::new(3).unwrap();
    let mut g = a.step();
    g[4] = 0;
    g[0] = 1;
    let next = a.step();
    assert_eq!(next, vec![0, 0, 0, 0, 1, 1, 0, 0, 0]);
}

#[test]
fn grid_reads_toggles_and_copies() {
    let mut g = Grid::new(3).unwrap();
    assert_eq!(g.size(), 3);
    assert_eq!(g.snapshot(), vec![0; 9]);
    g.toggle(2, 1);
    assert_eq!(g.read(2, 1), 1);
    assert_eq!(g.read(1, 2), 0);
    assert_eq!(g.snapshot(), vec![0, 0, 0, 0, 0, 1, 0, 0, 0]);
    g.toggle(2, 1);
    assert_eq!(g.read(2, 1), 0);
}

#[test]
fn turn_table_is_total_and_canonical() {
    let all = [Direction::Up, Direction::Right, Direction::Down, Direction::Left];
    for (i, d) in all.iter().enumerate() {
        assert_eq!(d.ordinal(), i);
        assert_eq!(d.turn(0), all[(i + 1) % 4]);
        assert_eq!(d.turn(1), all[(i + 3) % 4]);
    }
}
