use particle_life::fixed::ONE;
use particle_life::matrix::{AttractionMatrix, MAX_TYPES, TABLE_LEN};

fn filled(n: usize) -> AttractionMatrix {
    let mut m = AttractionMatrix::new(n);
    for r in 0..n {
        for c in 0..n {
            m.set(r, c, (10 * r + c + 1) as i64 * 1000);
        }
    }
    m
}

#[test]
fn shrink_then_grow_does_not_restore() {
    let mut m = filled(3);
    m.resize(2);
    assert_eq!(m.n_types, 2);
    for r in 0..2 {
        for c in 0..2 {
            assert_eq!(m.get(r, c), (10 * r + c + 1) as i64 * 1000);
        }
    }
    m.resize(3);
    assert_eq!(m.n_types, 3);
    for r in 0..3 {
        for c in 0..3 {
            let want = if r < 2 && c < 2 { (10 * r + c + 1) as i64 * 1000 } else { 0 };
            assert_eq!(m.get(r, c), want);
        }
    }
}

#[test]
fn resize_relays_the_block_with_the_new_stride() {
    let mut m = filled(2);
    m.resize(4);
    assert_eq!(m.table[0], 1000);
    assert_eq!(m.table[1], 2000);
    assert_eq!(m.table[4], 11_000);
    assert_eq!(m.table[5], 12_000);
    assert_eq!(m.get(1, 0), 11_000);
    assert_eq!(m.get(3, 3), 0);
    assert_eq!(m.table.len(), TABLE_LEN);
    assert!(m.table[16..].iter().all(|&v| v == 0));
}

#[test]
fn resize_to_same_count_keeps_everything() {
    let mut m = filled(MAX_TYPES);
    let before = m.table.clone();
    m.resize(MAX_TYPES);
    assert_eq!(m.table, before);
}

#[test]
fn set_clamps_coefficients() {
    let mut m = AttractionMatrix::new(2);
    m.set(0, 1, 5 * ONE);
    m.set(1, 0, -5 * ONE);
    assert_eq!(m.get(0, 1), ONE);
    assert_eq!(m.get(1, 0), -ONE);
    assert_eq!(m.get(0, 0), 0);
}

#[test]
fn randomize_stays_in_range_and_in_block() {
    let mut m = AttractionMatrix::new(3);
    m.randomize();
    assert_eq!(m.n_types, 3);
    assert!(m.table[..9].iter().all(|&v| (-ONE..=ONE).contains(&v)));
    assert!(m.table[9..].iter().all(|&v| v == 0));
    let distinct: std::collections::BTreeSet<i64> = m.table[..9].iter().copied().collect();
    assert!(distinct.len() > 1);
}

#[test]
fn resize_through_zero_types() {
    let mut m = filled(2);
    m.resize(0);
    assert_eq!(m.n_types, 0);
    assert!(m.table.iter().all(|&v| v == 0));
    m.resize(2);
    assert_eq!(m.get(1, 1), 0);
    let empty = AttractionMatrix::new(0);
    assert_eq!(empty.n_types, 0);
}

#[test]
fn fill_writes_rows_and_clamps() {
    let mut m = AttractionMatrix::new(2);
    m.fill(&vec![1, -2, 3 * ONE, -3 * ONE]);
    assert_eq!(m.get(0, 0), 1);
    assert_eq!(m.get(0, 1), -2);
    assert_eq!(m.get(1, 0), ONE);
    assert_eq!(m.get(1, 1), -ONE);
}
