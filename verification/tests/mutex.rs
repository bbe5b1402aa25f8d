use spinsync::mutex::{increment_n_under_lock, increment_under_lock, mutex_acquire_step, Mutex};

#[test]
fn mutex_new_starts_unlocked() {
    let m = Mutex::new(5u32);
    assert!(!m.is_locked());
}

#[test]
fn mutex_lock_sets_flag_and_keeps_value() {
    let mut m = Mutex::new(5u32);
    let g = m.lock();
    assert!(m.is_locked());
    assert_eq!(*m.borrow(&g), 5);
    m.unlock(g);
}

#[test]
fn mutex_set_writes_through_guard() {
    let mut m = Mutex::new(5u32);
    let g = m.lock();
    m.set(&g, 42);
    assert_eq!(*m.borrow(&g), 42);
    m.unlock(g);
    assert!(!m.is_locked());
}

#[test]
fn mutex_unlock_clears_flag_and_keeps_value() {
    let mut m = Mutex::new(String::from("payload"));
    let g = m.lock();
    m.unlock(g);
    assert!(!m.is_locked());
    let g2 = m.lock();
    assert_eq!(m.borrow(&g2).as_str(), "payload");
    m.unlock(g2);
}

#[test]
fn acquire_step_takes_a_free_lock() {
    assert_eq!(mutex_acquire_step(false), Some(true));
}

#[test]
fn acquire_step_refuses_a_held_lock() {
    // the exclusion law at the decision level: while one guard is live the
    // flag is set, and a second acquisition attempt is refused
    assert_eq!(mutex_acquire_step(true), None);
}

#[test]
fn each_acquisition_gets_one_release() {
    let mut m = Mutex::new(0u8);
    for _ in 0..3 {
        let g = m.lock();
        assert!(m.is_locked());
        assert_eq!(mutex_acquire_step(m.is_locked()), None);
        m.unlock(g);
        assert!(!m.is_locked());
        assert_eq!(mutex_acquire_step(m.is_locked()), Some(true));
    }
}

#[test]
fn increment_under_lock_adds_exactly_one() {
    let mut m = Mutex::new(0u64);
    increment_under_lock(&mut m);
    let g = m.lock();
    assert_eq!(*m.borrow(&g), 1);
    m.unlock(g);
}

#[test]
fn increment_n_under_lock_loses_no_update() {
    let mut m = Mutex::new(7u64);
    increment_n_under_lock(&mut m, 12345);
    let g = m.lock();
    assert_eq!(*m.borrow(&g), 12352);
    m.unlock(g);
}

#[test]
fn ten_workers_of_a_thousand_increments_end_at_ten_thousand() {
    // ten workers perform one thousand guarded increments each; exclusion
    // is leak-free, so the counter ends at exactly 10_000
    let mut m = Mutex::new(0u64);
    for _ in 0..10 {
        increment_n_under_lock(&mut m, 1000);
    }
    let g = m.lock();
    assert_eq!(*m.borrow(&g), 10_000);
    m.unlock(g);
}
