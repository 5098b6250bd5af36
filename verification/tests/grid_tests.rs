use big_letters::Grid;

#[test]
fn fresh_grid_is_all_bright() {
    let g = Grid::new();
    assert_eq!(g.len(), 256);
    let mut i: usize = 0;
    while i < g.len() {
        assert_eq!(g.cell(i), 255);
        i += 1;
    }
}

#[test]
fn darken_subtracts_one_step() {
    let mut g = Grid::new();
    g.darken(0);
    assert_eq!(g.cell(0), 223);
    assert_eq!(g.cell(1), 255);
    assert_eq!(g.cell(255), 255);
}

#[test]
fn darken_saturates_at_zero() {
    let mut g = Grid::new();
    let mut k: usize = 0;
    while k < 20 {
        g.darken(5);
        k += 1;
        let v = g.cell(5);
        let expected = if 255 >= 32 * (k as i64) { 255 - 32 * (k as i64) } else { 0 };
        assert_eq!(v as i64, expected);
    }
    assert_eq!(g.cell(5), 0);
}

#[test]
fn eight_darkens_reach_zero() {
    let mut g = Grid::new();
    for _ in 0..8 {
        g.darken(5);
    }
    assert_eq!(g.cell(5), 0);
}

#[test]
fn out_of_range_darken_is_a_no_op() {
    let mut g = Grid::new();
    g.darken(256);
    g.darken(9999);
    g.darken(usize::MAX);
    let mut i: usize = 0;
    while i < g.len() {
        assert_eq!(g.cell(i), 255);
        i += 1;
    }
}

#[test]
fn snapshot_copies_current_state() {
    let mut g = Grid::new();
    g.darken(3);
    let s = g.snapshot();
    assert_eq!(s.len(), 256);
    assert_eq!(s.cell(3), 223);
    assert_eq!(s.cell(4), 255);
}

#[test]
fn snapshot_is_independent_of_later_writes() {
    let mut g = Grid::new();
    let s = g.snapshot();
    g.darken(7);
    assert_eq!(s.cell(7), 255);
    assert_eq!(g.cell(7), 223);
}

#[test]
fn darkens_on_distinct_indices_are_isolated() {
    let mut g = Grid::new();
    g.darken(10);
    g.darken(20);
    g.darken(10);
    assert_eq!(g.cell(10), 191);
    assert_eq!(g.cell(20), 223);
    let mut i: usize = 0;
    while i < g.len() {
        if i != 10 && i != 20 {
            assert_eq!(g.cell(i), 255);
        }
        i += 1;
    }
}
