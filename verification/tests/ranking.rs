use host_snapshot::float_bits::F32Bits;
use host_snapshot::ranking::rank_positions;

fn usages(values: &[f32]) -> Vec<F32Bits> {
    values.iter().map(|value| F32Bits::from_bits(value.to_bits())).collect()
}

#[test]
fn ranks_highest_first() {
    let picks = rank_positions(&usages(&[5.0, 90.0, 3.0, 99.5, 1.0]), 10);
    assert_eq!(picks, vec![3, 1, 0, 2, 4]);
}

#[test]
fn keeps_no_more_than_the_limit() {
    let picks = rank_positions(&usages(&[5.0, 90.0, 3.0, 99.5, 1.0]), 2);
    assert_eq!(picks, vec![3, 1]);
}

#[test]
fn keeps_everything_when_there_is_less_than_the_limit() {
    let picks = rank_positions(&usages(&[1.0, 2.0]), 10);
    assert_eq!(picks, vec![1, 0]);
}

#[test]
fn ranks_nothing_from_nothing() {
    assert_eq!(rank_positions(&usages(&[]), 10), Vec::<usize>::new());
}

#[test]
fn a_limit_of_zero_keeps_nothing() {
    assert_eq!(rank_positions(&usages(&[1.0, 2.0, 3.0]), 0), Vec::<usize>::new());
}

#[test]
fn equal_usages_stay_in_reported_order() {
    let picks = rank_positions(&usages(&[2.0, 7.0, 2.0, 7.0, 2.0]), 4);
    assert_eq!(picks, vec![1, 3, 0, 2]);
}

#[test]
fn both_zeros_rank_alike() {
    let picks = rank_positions(&usages(&[-0.0, 0.0, -0.0]), 3);
    assert_eq!(picks, vec![0, 1, 2]);
}

#[test]
fn what_is_not_a_number_ranks_last() {
    let picks = rank_positions(&usages(&[f32::NAN, 1.0, -f32::NAN, -5.0, f32::NEG_INFINITY]), 5);
    assert_eq!(picks, vec![1, 3, 4, 0, 2]);
}

#[test]
fn what_is_not_a_number_is_cut_off_first() {
    let picks = rank_positions(&usages(&[f32::NAN, 0.0, f32::NAN, 0.5]), 2);
    assert_eq!(picks, vec![3, 1]);
}

#[test]
fn infinity_ranks_first() {
    let picks = rank_positions(&usages(&[f32::MAX, f32::INFINITY, 100.0]), 3);
    assert_eq!(picks, vec![1, 0, 2]);
}

#[test]
fn ranking_is_the_same_when_taken_twice() {
    let values = usages(&[4.0, 4.0, 9.0, f32::NAN, 0.0, 12.5]);
    assert_eq!(rank_positions(&values, 3), rank_positions(&values, 3));
}
