use ternary_texture_memory::{neighbor_counts_1d, neighbor_counts_2d, value_counts, Ternary};

use Ternary::{False as F, True as T, Unknown as U};

#[test]
fn counts_1d_perfect() {
    let data = vec![T; 10];
    let c = neighbor_counts_1d(&data);
    assert_eq!(c.total_pairs, 9);
    assert_eq!(c.same_pairs, 9);
}

#[test]
fn counts_1d_alternating() {
    let c = neighbor_counts_1d(&[T, F, T, F]);
    assert_eq!(c.total_pairs, 3);
    assert_eq!(c.same_pairs, 0);
}

#[test]
fn counts_1d_mixed() {
    let c = neighbor_counts_1d(&[T, T, F, F]);
    assert_eq!(c.total_pairs, 3);
    assert_eq!(c.same_pairs, 2);
}

#[test]
fn counts_1d_single_and_empty() {
    let c = neighbor_counts_1d(&[T]);
    assert_eq!((c.same_pairs, c.total_pairs), (0, 0));
    let c = neighbor_counts_1d(&[]);
    assert_eq!((c.same_pairs, c.total_pairs), (0, 0));
}

#[test]
fn counts_2d_perfect() {
    let data = vec![T; 16];
    let c = neighbor_counts_2d(&data, 4, 4);
    // 4 rows of 3 horizontal pairs, 4 columns of 3 vertical pairs
    assert_eq!(c.total_pairs, 24);
    assert_eq!(c.same_pairs, 24);
}

#[test]
fn counts_2d_checkerboard() {
    let data: Vec<Ternary> = (0..16)
        .map(|i| if (i % 2 + (i / 4) % 2) % 2 == 0 { T } else { F })
        .collect();
    let c = neighbor_counts_2d(&data, 4, 4);
    assert_eq!(c.total_pairs, 24);
    // rows alternate T F T F / F T F T: no neighbor pair agrees.
    assert_eq!(c.same_pairs, 0);
    assert!((c.same_pairs as f64 / c.total_pairs as f64) < 0.5);
}

#[test]
fn counts_2d_small_grids() {
    let c = neighbor_counts_2d(&[], 0, 3);
    assert_eq!((c.same_pairs, c.total_pairs), (0, 0));
    let c = neighbor_counts_2d(&[], 1, 1);
    assert_eq!((c.same_pairs, c.total_pairs), (0, 0));
    // 3 wide, 2 high: T U T / T F F
    let c = neighbor_counts_2d(&[T, U, T, T, F, F], 3, 2);
    // pairs: h (T,U) (U,T) (T,F) (F,F); v (T,T) (U,F) (T,F)
    assert_eq!(c.total_pairs, 7);
    assert_eq!(c.same_pairs, 2);
}

#[test]
fn value_counts_sum_to_length() {
    let mut data = Vec::new();
    data.extend(std::iter::repeat(T).take(33));
    data.extend(std::iter::repeat(F).take(33));
    data.extend(std::iter::repeat(U).take(34));
    let c = value_counts(&data);
    assert_eq!((c.true_count, c.false_count, c.unknown_count), (33, 33, 34));
    assert_eq!(c.true_count + c.false_count + c.unknown_count, data.len());
    let c = value_counts(&vec![T; 100]);
    assert_eq!((c.true_count, c.false_count, c.unknown_count), (100, 0, 0));
    let c = value_counts(&[]);
    assert_eq!((c.true_count, c.false_count, c.unknown_count), (0, 0, 0));
}
