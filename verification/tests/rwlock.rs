use spinsync::rwlock::{rwlock_read_step, rwlock_write_step, RwLock};

#[test]
fn rwlock_new_starts_free() {
    let l = RwLock::new(0i64);
    assert_eq!(l.state(), 0);
}

#[test]
fn read_step_registers_readers() {
    assert_eq!(rwlock_read_step(0), Some(1));
    assert_eq!(rwlock_read_step(5), Some(6));
    assert_eq!(rwlock_read_step(i32::MAX - 1), Some(i32::MAX));
}

#[test]
fn read_step_refuses_a_live_writer() {
    assert_eq!(rwlock_read_step(-1), None);
}

#[test]
fn write_step_takes_only_a_free_lock() {
    assert_eq!(rwlock_write_step(0), Some(-1));
    assert_eq!(rwlock_write_step(1), None);
    assert_eq!(rwlock_write_step(3), None);
    assert_eq!(rwlock_write_step(-1), None);
}

#[test]
fn read_guard_grants_shared_access() {
    let mut l = RwLock::new(99u32);
    let g = l.read();
    assert_eq!(l.state(), 1);
    assert_eq!(*l.borrow(&g), 99);
    l.release_read(g);
    assert_eq!(l.state(), 0);
}

#[test]
fn several_readers_coexist_and_exclude_the_writer() {
    let mut l = RwLock::new(1u8);
    let g1 = l.read();
    let g2 = l.read();
    let g3 = l.read();
    assert_eq!(l.state(), 3);
    // all three observe the value; a writer is refused the whole time
    assert_eq!(*l.borrow(&g1), 1);
    assert_eq!(*l.borrow(&g2), 1);
    assert_eq!(*l.borrow(&g3), 1);
    assert_eq!(rwlock_write_step(l.state()), None);
    l.release_read(g1);
    l.release_read(g2);
    assert_eq!(rwlock_write_step(l.state()), None);
    l.release_read(g3);
    assert_eq!(rwlock_write_step(l.state()), Some(-1));
}

#[test]
fn writer_excludes_readers_and_writers() {
    let mut l = RwLock::new(0u32);
    let w = l.write();
    assert_eq!(l.state(), -1);
    assert_eq!(rwlock_read_step(l.state()), None);
    assert_eq!(rwlock_write_step(l.state()), None);
    l.release_write(w);
    assert_eq!(l.state(), 0);
}

#[test]
fn write_guard_grants_exclusive_access() {
    let mut l = RwLock::new(10i32);
    let w = l.write();
    assert_eq!(*l.borrow_exclusive(&w), 10);
    l.set(&w, 20);
    assert_eq!(*l.borrow_exclusive(&w), 20);
    l.release_write(w);
    let g = l.read();
    assert_eq!(*l.borrow(&g), 20);
    l.release_read(g);
}

#[test]
fn racing_writers_take_turns_and_the_second_write_lands() {
    // two writers contend for the same lock wrapping 0: the first sets 1
    // and, for as long as it holds the lock, the second observes the lock
    // as taken; once released, the second acquires and sets 2
    let mut l = RwLock::new(0u64);
    let w1 = l.write();
    l.set(&w1, 1);
    for _ in 0..100 {
        // the waiting writer samples the state: never free during the hold
        assert_eq!(rwlock_write_step(l.state()), None);
    }
    l.release_write(w1);
    let w2 = l.write();
    l.set(&w2, 2);
    l.release_write(w2);
    let g = l.read();
    assert_eq!(*l.borrow(&g), 2);
    l.release_read(g);
}

#[test]
fn five_readers_all_live_then_one_writer() {
    // five readers on a list are live at once — the state probe reaches 5
    // — none mutates, and a writer enters only after all five released
    let mut l = RwLock::new(vec![1i32, 2, 3]);
    let g1 = l.read();
    let g2 = l.read();
    let g3 = l.read();
    let g4 = l.read();
    let g5 = l.read();
    assert_eq!(l.state(), 5);
    assert_eq!(l.borrow(&g1).len(), 3);
    assert_eq!(l.borrow(&g5)[0], 1);
    assert_eq!(rwlock_write_step(l.state()), None);
    l.release_read(g1);
    l.release_read(g2);
    l.release_read(g3);
    l.release_read(g4);
    assert_eq!(rwlock_write_step(l.state()), None);
    l.release_read(g5);
    assert_eq!(l.state(), 0);
    let w = l.write();
    l.set(&w, vec![4, 5]);
    l.release_write(w);
    let g = l.read();
    assert_eq!(*l.borrow(&g), vec![4, 5]);
    l.release_read(g);
}
