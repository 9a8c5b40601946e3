use ticket_threads::scoped_sum::{add_halves, partial_sum, sum};

#[test]
fn empty() {
    assert_eq!(sum(vec![]), 0);
}

#[test]
fn one() {
    assert_eq!(sum(vec![1]), 1);
}

#[test]
fn five() {
    assert_eq!(sum(vec![1, 2, 3, 4, 5]), 15);
}

#[test]
fn nine() {
    assert_eq!(sum(vec![1, 2, 3, 4, 5, 6, 7, 8, 9]), 45);
}

#[test]
fn ten() {
    assert_eq!(sum(vec![1, 2, 3, 4, 5, 6, 7, 8, 9, 10]), 55);
}

#[test]
fn halves_add_up_to_whole() {
    let v = vec![4, -7, 19, 3, -2, 8, 11];
    let mid = v.len() / 2;
    let first = partial_sum(&v, 0, mid);
    let second = partial_sum(&v, mid, v.len());
    assert_eq!(first, 16);
    assert_eq!(second, 20);
    assert_eq!(first + second, partial_sum(&v, 0, v.len()));
    assert_eq!(sum(v), 36);
}

#[test]
fn halves_may_exceed_i32_when_total_fits() {
    let v = vec![i32::MAX, i32::MAX, -i32::MAX, -i32::MAX];
    assert_eq!(partial_sum(&v, 0, 2), 2 * (i32::MAX as i128));
    assert_eq!(sum(v), 0);
}

#[test]
fn empty_range_sums_to_zero() {
    assert_eq!(partial_sum(&[5, 6], 1, 1), 0);
}

#[test]
fn add_halves_of_extremes() {
    assert_eq!(add_halves(i32::MIN as i128, 0), i32::MIN);
    assert_eq!(add_halves(-1, i32::MAX as i128 + 1), i32::MAX);
}
