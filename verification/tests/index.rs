use desklift::Index;

#[test]
fn index_wrapping() {
    let mut index3 = Index::new(3);
    let mut index4 = Index::new(4);
    assert_eq!(index3.current(), 0);
    assert_eq!(index4.current(), 0);

    index3.increment(); index4.increment();
    index3.increment(); index4.increment();
    assert_eq!(index3.current(), 2);
    assert_eq!(index4.current(), 2);

    index3.increment(); index4.increment();
    assert_eq!(index3.current(), 0);
    assert_eq!(index4.current(), 3);

    index3.increment(); index4.increment();
    assert_eq!(index3.current(), 1);
    assert_eq!(index4.current(), 0);
}

#[test]
fn next() {
    let mut index3 = Index::new(3);

    // next() should return the next value...
    assert_eq!(index3.current(), 0);
    assert_eq!(index3.next(), 1);

    // ...without modifying the current value.
    assert_eq!(index3.current(), 0);

    // Wrapping should be taken into account.
    index3.increment(); // 1
    index3.increment(); // 2
    assert_eq!(index3.current(), 2);
    assert_eq!(index3.next(), 0);
}

#[test]
fn full_cycle_returns_to_the_start() {
    for limit in 1..=70usize {
        let mut index = Index::new(limit);
        for start in 0..limit {
            assert_eq!(index.current(), start);
            let mut walker = Index::new(limit);
            for _ in 0..start {
                walker.increment();
            }
            for _ in 0..limit {
                walker.increment();
            }
            assert_eq!(walker.current(), start);
            index.increment();
        }
        assert_eq!(index.current(), 0);
    }
}

#[test]
fn value_stays_below_the_limit() {
    let mut index = Index::new(5);
    for step in 0..23usize {
        assert_eq!(index.current(), step % 5);
        assert!(index.current() < 5);
        assert_eq!(index.next(), (step + 1) % 5);
        index.increment();
    }
}

#[test]
fn limit_of_one_stays_at_zero() {
    let mut index = Index::new(1);
    assert_eq!(index.current(), 0);
    assert_eq!(index.next(), 0);
    index.increment();
    assert_eq!(index.current(), 0);
}
