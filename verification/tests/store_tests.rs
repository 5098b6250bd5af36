use big_letters::grid_json_bytes;
use big_letters::SharedGrid;

#[test]
fn fresh_store_snapshot_is_all_bright() {
    let store = SharedGrid::new();
    let g = store.snapshot();
    assert_eq!(g.len(), 256);
    let mut i: usize = 0;
    while i < g.len() {
        assert_eq!(g.cell(i), 255);
        i += 1;
    }
}

#[test]
fn store_darken_is_visible_to_later_snapshots() {
    let store = SharedGrid::new();
    store.darken(0);
    let g = store.snapshot();
    assert_eq!(g.cell(0), 223);
    assert_eq!(g.cell(1), 255);
}

#[test]
fn store_darken_saturates() {
    let store = SharedGrid::new();
    for _ in 0..8 {
        store.darken(5);
    }
    assert_eq!(store.snapshot().cell(5), 0);
    store.darken(5);
    assert_eq!(store.snapshot().cell(5), 0);
}

#[test]
fn store_out_of_range_darken_is_a_no_op() {
    let store = SharedGrid::new();
    let before = grid_json_bytes(&store.snapshot());
    store.darken(9999);
    let after = grid_json_bytes(&store.snapshot());
    assert_eq!(before, after);
}

#[test]
fn store_serves_the_read_endpoint_body() {
    let store = SharedGrid::new();
    store.darken(0);
    let body = String::from_utf8(grid_json_bytes(&store.snapshot())).unwrap();
    assert!(body.starts_with("{\"cells\":[223,255,"));
    assert!(body.ends_with(",255]}"));
}
