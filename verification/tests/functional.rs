use rust_book::counter::{sum_of_neighbour_products, Counter};

#[test]
fn iterator_demonstration() {
    let v1 = vec![1, 2, 3];
    let mut v1_iter = v1.iter();

    assert_eq!(v1_iter.next(), Some(&1));
    assert_eq!(v1_iter.next(), Some(&2));
    assert_eq!(v1_iter.next(), Some(&3));
    assert_eq!(v1_iter.next(), None);
}

#[test]
fn iterator_sum() {
    let v1 = vec![1, 2, 3];
    let v1_iter = v1.iter();
    let total: i32 = v1_iter.sum();

    assert_eq!(total, 6);
}

#[test]
fn testing_custom_iterator() {
    let mut counter = Counter::new();

    assert_eq!(counter.count, 0);
    assert_eq!(counter.next(), Some(1));
    assert_eq!(counter.next(), Some(2));
    assert_eq!(counter.next(), Some(3));
    assert_eq!(counter.next(), Some(4));
    assert_eq!(counter.next(), Some(5));
    assert_eq!(counter.next(), None);
}

#[test]
fn spent_counter_stays_spent() {
    let mut counter = Counter::new();
    for _ in 0..5 {
        assert!(counter.next().is_some());
    }
    assert_eq!(counter.next(), None);
    assert_eq!(counter.next(), None);
    assert_eq!(counter.count, 5);
}

#[test]
fn neighbour_products_add_up_to_eighteen() {
    assert_eq!(sum_of_neighbour_products(), 18);
}
