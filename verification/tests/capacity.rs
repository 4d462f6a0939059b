use unempty::Capacity;

#[test]
fn new_total_keeps_a_total_above_n() {
    let c = Capacity::<1>::new_total(10);
    assert_eq!(c.total(), 10);
    assert_eq!(c.dynamic(), 9);
}

#[test]
fn new_total_raises_a_total_below_n() {
    let c = Capacity::<1>::new_total(0);
    assert_eq!(c.total(), 1);
    assert_eq!(c.dynamic(), 0);

    let c = Capacity::<4>::new_total(2);
    assert_eq!(c.total(), 4);
    assert_eq!(c.dynamic(), 0);
}

#[test]
fn new_total_at_n_and_at_the_maximum() {
    let c = Capacity::<4>::new_total(4);
    assert_eq!(c.total(), 4);
    assert_eq!(c.dynamic(), 0);

    let c = Capacity::<4>::new_total(usize::MAX);
    assert_eq!(c.total(), usize::MAX);
    assert_eq!(c.dynamic(), usize::MAX - 4);
}

#[test]
fn new_total_is_the_larger_of_argument_and_n() {
    for t in [0usize, 1, 2, 3, 4, 5, 100, usize::MAX - 1, usize::MAX] {
        let c = Capacity::<3>::new_total(t);
        assert_eq!(c.total(), t.max(3));
        assert_eq!(c.dynamic(), c.total() - 3);
    }
}

#[test]
fn new_dynamic_adds_n() {
    let c = Capacity::<1>::new_dynamic(1);
    assert_eq!(c.dynamic(), 1);
    assert_eq!(c.total(), 2);

    let c = Capacity::<2>::new_dynamic(0);
    assert_eq!(c.dynamic(), 0);
    assert_eq!(c.total(), 2);
}

#[test]
fn new_dynamic_saturates_near_the_maximum() {
    let c = Capacity::<1>::new_dynamic(usize::MAX);
    assert_eq!(c.dynamic(), usize::MAX - 1);
    assert_eq!(c.total(), usize::MAX);

    let c = Capacity::<5>::new_dynamic(usize::MAX - 2);
    assert_eq!(c.dynamic(), usize::MAX - 5);
    assert_eq!(c.total(), usize::MAX);

    let c = Capacity::<5>::new_dynamic(usize::MAX - 5);
    assert_eq!(c.dynamic(), usize::MAX - 5);
    assert_eq!(c.total(), usize::MAX);

    let c = Capacity::<5>::new_dynamic(usize::MAX - 6);
    assert_eq!(c.dynamic(), usize::MAX - 6);
    assert_eq!(c.total(), usize::MAX - 1);
}

#[test]
fn new_dynamic_is_the_smaller_of_argument_and_limit() {
    for d in [0usize, 1, 2, 100, usize::MAX - 4, usize::MAX - 3, usize::MAX - 2, usize::MAX] {
        let c = Capacity::<3>::new_dynamic(d);
        assert_eq!(c.dynamic(), d.min(usize::MAX - 3));
        assert_eq!(c.total(), c.dynamic() + 3);
    }
}

#[test]
fn default_is_the_smallest_capacity() {
    let c = Capacity::<1>::default();
    assert_eq!(c.total(), 1);
    assert_eq!(c.dynamic(), 0);
    assert_eq!(c, Capacity::<1>::new_total(1));

    let c = Capacity::<7>::default();
    assert_eq!(c.total(), 7);
    assert_eq!(c.dynamic(), 0);
}

#[test]
fn from_a_number_reads_it_as_total() {
    let c: Capacity<1> = 10usize.into();
    assert_eq!(c, Capacity::<1>::new_total(10));
    assert_eq!(c.dynamic(), 9);

    let c = Capacity::<2>::from(1u8);
    assert_eq!(c.total(), 2);
    assert_eq!(c.dynamic(), 0);

    let c = Capacity::<2>::from(300u16);
    assert_eq!(c.total(), 300);
    assert_eq!(c.dynamic(), 298);
}

#[test]
fn sizeof_n_is_n() {
    assert_eq!(Capacity::<1>::sizeof_n(), 1);
    assert_eq!(Capacity::<0>::sizeof_n(), 0);
    assert_eq!(Capacity::<12>::sizeof_n(), 12);
}

#[test]
fn capacities_compare_by_total_then_dynamic() {
    let small = Capacity::<1>::new_total(3);
    let large = Capacity::<1>::new_total(4);
    assert!(small < large);
    assert_eq!(small, Capacity::<1>::new_dynamic(2));
    assert_ne!(small, large);
    let copy = small;
    assert_eq!(copy, small);
}

#[test]
fn to_string_shows_both_sizes() {
    assert_eq!(
        Capacity::<1>::new_total(10).to_string(),
        "capacity(static_size: 10, dynamic_size: 9)"
    );
    assert_eq!(
        Capacity::<1>::default().to_string(),
        "capacity(static_size: 1, dynamic_size: 0)"
    );
    assert_eq!(
        Capacity::<3>::new_dynamic(1234567).to_string(),
        "capacity(static_size: 1234570, dynamic_size: 1234567)"
    );
    assert_eq!(
        Capacity::<1>::new_dynamic(usize::MAX).to_string(),
        format!("capacity(static_size: {}, dynamic_size: {})", usize::MAX, usize::MAX - 1)
    );
}

#[test]
fn to_string_writes_base_ten() {
    for n in [0usize, 1, 9, 10, 11, 99, 100, 101, 909, 1000, 65535, 1234567890, usize::MAX] {
        let text = Capacity::<0>::new_total(n).to_string();
        assert_eq!(text, format!("capacity(static_size: {}, dynamic_size: {})", n, n));
    }
}
