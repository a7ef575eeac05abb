use numerics::NumberSet;

#[test]
fn test_insert() {
    let mut number_set = NumberSet::<i64>::new();
    assert_eq!(number_set.insert(5), true);
    assert_eq!(number_set.insert(10), true);
    assert_eq!(number_set.insert(5), false);
    assert_eq!(number_set.insert(15), true);
}

#[test]
fn test_max_min() {
    let mut number_set = NumberSet::new();
    number_set.insert(5);
    number_set.insert(10);
    number_set.insert(15);
    assert_eq!(number_set.max(), 15);
    assert_eq!(number_set.min(), 5);
}

#[test]
fn test_len() {
    let mut number_set = NumberSet::new();
    assert_eq!(number_set.len(), 0);
    number_set.insert(5);
    number_set.insert(10);
    assert_eq!(number_set.len(), 2);
}

#[test]
fn test_mul() {
    let mut number_set = NumberSet::new();
    number_set.insert(5);
    number_set.insert(10);
    number_set.mul(2);
    assert_eq!(*number_set.numbers(), vec![10, 20]);
}

#[test]
fn insert_sequence_results_and_len() {
    let mut s = NumberSet::<i64>::new();
    let results = vec![s.insert(5), s.insert(10), s.insert(5), s.insert(15)];
    assert_eq!(results, vec![true, true, false, true]);
    assert_eq!(s.len(), 3);
}

#[test]
fn fresh_set_is_empty_with_zero_bounds() {
    let s = NumberSet::<i64>::new();
    assert_eq!(s.len(), 0);
    assert_eq!(s.max(), 0);
    assert_eq!(s.min(), 0);
    assert!(s.numbers().is_empty());
}

#[test]
fn repeated_inserts_count_distinct_values() {
    let mut s = NumberSet::<i32>::new();
    let inputs = [3, 3, 7, 3, 7, 7, -1, 3];
    let mut accepted = 0;
    for x in inputs {
        if s.insert(x) {
            accepted += 1;
        }
    }
    assert_eq!(s.len(), 3);
    assert_eq!(accepted, 3);
    assert_eq!(*s.numbers(), vec![3, 7, -1]);
}

#[test]
fn refused_insert_leaves_set_unchanged() {
    let mut s = NumberSet::<i64>::new();
    s.insert(4);
    s.insert(-2);
    assert!(!s.insert(4));
    assert_eq!(*s.numbers(), vec![4, -2]);
    assert_eq!(s.max(), 4);
    assert_eq!(s.min(), -2);
}

#[test]
fn bounds_follow_inserts_in_any_order() {
    let mut s = NumberSet::<i64>::new();
    for x in [7, -3, 12, 0, -8, 12] {
        s.insert(x);
    }
    assert_eq!(s.max(), 12);
    assert_eq!(s.min(), -8);
}

#[test]
fn single_member_is_both_bounds() {
    let mut s = NumberSet::<i64>::new();
    s.insert(-9);
    assert_eq!(s.max(), -9);
    assert_eq!(s.min(), -9);
}

#[test]
fn negative_first_member_replaces_zero_bounds() {
    let mut s = NumberSet::<i64>::new();
    s.insert(-5);
    s.insert(-2);
    assert_eq!(s.max(), -2);
    assert_eq!(s.min(), -5);
}

#[test]
fn len_counts_accepted_inserts_across_scaling() {
    let mut s = NumberSet::<i64>::new();
    let mut accepted = 0;
    for x in [1, 2, 2] {
        if s.insert(x) {
            accepted += 1;
        }
    }
    s.mul(3);
    for x in [6, 3, 4] {
        if s.insert(x) {
            accepted += 1;
        }
    }
    assert_eq!(s.len(), accepted);
    assert_eq!(*s.numbers(), vec![3, 6, 4]);
}

#[test]
fn scaling_keeps_bounds_as_they_were() {
    let mut s = NumberSet::<i64>::new();
    s.insert(5);
    s.insert(10);
    s.mul(-1);
    assert_eq!(*s.numbers(), vec![-5, -10]);
    assert_eq!(s.max(), 10);
    assert_eq!(s.min(), 5);
}

#[test]
fn scaling_by_zero_keeps_collapsed_members() {
    let mut s = NumberSet::<u64>::new();
    s.insert(2);
    s.insert(9);
    s.mul(0);
    assert_eq!(*s.numbers(), vec![0, 0]);
    assert_eq!(s.len(), 2);
}

#[test]
fn scaling_an_empty_set_does_nothing() {
    let mut s = NumberSet::<u32>::new();
    s.mul(7);
    assert_eq!(s.len(), 0);
    assert_eq!(s.max(), 0);
}

#[test]
fn grows_past_initial_capacity() {
    let mut s = NumberSet::<i64>::new();
    for x in 0..25 {
        assert!(s.insert(x));
    }
    assert_eq!(s.len(), 25);
    assert_eq!(s.max(), 24);
    assert_eq!(s.min(), 0);
}
