use std::cell::Cell;

use cncalc::{arg_extremes, calc_distances, pair_total, sort_dist, CalcError, Source};

fn catalog(n: usize) -> Source<f64> {
    Source {
        id: (0..n).map(|i| vec![char::from(b'a' + i as u8)]).collect(),
        ra: (0..n).map(|i| i as f64).collect(),
        dec: (0..n).map(|i| i as f64).collect(),
        rho: (0..n).map(|i| 1.0 + i as f64).collect(),
        g_abs: None,
    }
}

fn pair_value(i: usize, j: usize) -> f64 {
    (10 * i + j) as f64
}

#[test]
fn too_few_stars_give_insufficient_data() {
    for n in 0..2 {
        let r = calc_distances(&catalog(n), 0.0, pair_value);
        assert_eq!(r.err(), Some(CalcError::InsufficientData));
    }
}

#[test]
fn uneven_catalog_gives_index_error() {
    let mut s = catalog(3);
    s.rho.pop();
    assert_eq!(calc_distances(&s, 0.0, pair_value).err(), Some(CalcError::IndexOutOfRange));
}

#[test]
fn matrix_is_symmetric_with_fixed_diagonal() {
    let m = calc_distances(&catalog(4), 0.0, pair_value).unwrap();
    assert_eq!(m.size(), 4);
    for i in 0..4 {
        assert_eq!(m.get(i, i), Ok(0.0));
        for j in 0..4 {
            assert_eq!(m.get(i, j), m.get(j, i));
            if i < j {
                assert_eq!(m.get(i, j), Ok(pair_value(i, j)));
            }
        }
    }
    assert_eq!(m.get(4, 0), Err(CalcError::IndexOutOfRange));
    assert_eq!(m.column(2), Ok(vec![2.0, 12.0, 0.0, 23.0]));
    assert_eq!(m.column(7), Err(CalcError::IndexOutOfRange));
}

#[test]
fn each_pair_is_evaluated_once() {
    let calls = Cell::new(0u64);
    let m = calc_distances(&catalog(5), 0.0, |i: usize, j: usize| {
        calls.set(calls.get() + 1);
        pair_value(i, j)
    });
    assert!(m.is_ok());
    assert_eq!(Some(calls.get()), pair_total(5));
    assert_eq!(calls.get(), 10);
}

#[test]
fn pair_total_counts_unordered_pairs() {
    assert_eq!(pair_total(0), Some(0));
    assert_eq!(pair_total(1), Some(0));
    assert_eq!(pair_total(2), Some(1));
    assert_eq!(pair_total(100), Some(4950));
    assert_eq!(pair_total(usize::MAX), None);
}

#[test]
fn neighbour_row_leaves_out_only_the_diagonal() {
    // Stars 0 and 2 coincide: their zero distance is a real neighbour distance.
    let d: [[f64; 3]; 3] = [[0.0, 3.0, 0.0], [3.0, 0.0, 4.0], [0.0, 4.0, 0.0]];
    let m = calc_distances(&catalog(3), 0.0, |i: usize, j: usize| d[i][j]).unwrap();
    assert_eq!(m.neighbours(0), Ok(vec![3.0, 0.0]));
    assert_eq!(m.neighbours(1), Ok(vec![3.0, 4.0]));
    assert_eq!(m.neighbours(3), Err(CalcError::IndexOutOfRange));
    let keys = calc_distances(&catalog(3), 0u64, |i: usize, j: usize| d[i][j].to_bits()).unwrap();
    let picks = sort_dist(&keys);
    assert_eq!(picks, vec![(2, 1), (0, 2), (0, 1)]);
}

#[test]
fn nearest_mean_farthest_are_ordered() {
    let pts: [f64; 4] = [0.0, 1.0, 3.0, 7.0];
    let m = calc_distances(&catalog(4), 0.0, |i: usize, j: usize| pts[j] - pts[i]).unwrap();
    let keys = calc_distances(&catalog(4), 0u64, |i: usize, j: usize| (pts[j] - pts[i]).to_bits()).unwrap();
    let picks = sort_dist(&keys);
    for i in 0..4 {
        let row = m.neighbours(i).unwrap();
        let mean = row.iter().sum::<f64>() / row.len() as f64;
        let lo = m.get(i, picks[i].0).unwrap();
        let hi = m.get(i, picks[i].1).unwrap();
        assert!(lo <= mean && mean <= hi);
        assert!(row.iter().all(|x| lo <= *x && *x <= hi));
    }
    assert_eq!(picks[0], (1, 3));
    assert_eq!(picks[3], (2, 0));
}

#[test]
fn ties_go_to_first_position() {
    let d = [[0u64, 5, 5, 5], [5, 0, 5, 5], [5, 5, 0, 5], [5, 5, 5, 0]];
    let keys = calc_distances(&catalog(4), 0u64, |i: usize, j: usize| d[i][j]).unwrap();
    assert_eq!(sort_dist(&keys), vec![(1, 1), (0, 0), (0, 0), (0, 0)]);
}

#[test]
fn arg_extremes_of_catalog_summaries() {
    assert_eq!(arg_extremes(&vec![]), None);
    assert_eq!(arg_extremes(&vec![3, 1, 4, 1, 5, 9, 2, 9]), Some((1, 5)));
    assert_eq!(arg_extremes(&vec![7]), Some((0, 0)));
}
