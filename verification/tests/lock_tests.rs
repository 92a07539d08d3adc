use nrfs::lock_model::{ReaderMove, ScanMove};
use nrfs::rwlock::{reader_held, reader_move, scan_move, ShardedLock, MAX_READER_THREADS};
use nrfs::topology::MachineTopology;

// Tests if we can successfully default-construct a reader-writer lock.
#[test]
fn test_rwlock_default() {
    let lock = ShardedLock::default();
    let data = usize::default();

    assert_eq!(lock.writer_present(), false);
    for idx in 0..MAX_READER_THREADS {
        assert_eq!(lock.readers_at(idx), 0);
    }
    assert_eq!(data, usize::default());
}

// Tests if the value behind the lock can be written once the lock is held
// for writing.
#[test]
fn test_writer_lock() {
    let lock = ShardedLock::default();
    let mut data = usize::default();
    let val = 10;

    assert!(lock.claim_writer(1) && lock.await_readers(1));
    data = val;

    assert_eq!(lock.writer_present(), true);
    assert_eq!(lock.readers_at(0), 0);
    assert_eq!(data, val);
}

// Tests if the write lock is released once the writer gives it back.
#[test]
fn test_writer_unlock() {
    let lock = ShardedLock::default();

    {
        assert!(lock.claim_writer(1) && lock.await_readers(1));
        assert_eq!(lock.writer_present(), true);
        assert!(lock.write_unlock());
    }

    assert_eq!(lock.writer_present(), false);
}

// Tests if the value behind the lock can be read once the lock is held for
// reading.
#[test]
fn test_reader_lock() {
    let lock = ShardedLock::default();
    let val = 10;
    let data: usize = val;

    assert!(lock.try_read(0, 1));

    assert_eq!(lock.writer_present(), false);
    assert_eq!(lock.readers_at(0), 1);
    assert_eq!(data, val);
}

// Tests if a reader lock is released once the reader gives it back.
#[test]
fn test_reader_unlock() {
    let lock = ShardedLock::default();

    {
        assert!(lock.try_read(0, 1));
        assert_eq!(lock.readers_at(0), 1);
        assert!(lock.read_unlock(0));
    }

    assert_eq!(lock.readers_at(0), 0);
}

// Tests that multiple readers can simultaneously acquire a readers lock
#[test]
fn test_multiple_readers() {
    let lock = ShardedLock::default();
    let val = 10;
    let data: usize = val;

    assert!(lock.try_read(0, 1));
    let f = data;
    assert!(lock.try_read(1, 1));
    let s = data;
    assert!(lock.try_read(2, 1));
    let t = data;

    assert_eq!(lock.readers_at(0), 1);
    assert_eq!(lock.readers_at(1), 1);
    assert_eq!(lock.readers_at(2), 1);
    assert_eq!(f, val);
    assert_eq!(s, val);
    assert_eq!(t, val);
    assert!(!lock.readers_idle());
}

// Tests that multiple writers and readers whose scopes don't interfere can
// acquire the lock.
#[test]
fn test_lock_combinations() {
    let l = ShardedLock::default();

    {
        assert!(l.claim_writer(1) && l.await_readers(1));
        assert!(l.write_unlock());
    }

    {
        assert!(l.claim_writer(1) && l.await_readers(1));
        assert!(l.write_unlock());
    }

    {
        assert!(l.try_read(0, 1));
        assert!(l.try_read(1, 1));
        assert!(l.read_unlock(1));
        assert!(l.read_unlock(0));
    }

    {
        assert!(l.claim_writer(1) && l.await_readers(1));
        assert!(l.write_unlock());
    }
}

#[test]
fn default_lock_has_a_slot_for_every_reader() {
    let lock = ShardedLock::default();
    assert_eq!(lock.slots(), MAX_READER_THREADS);
    assert!(lock.readers_idle());
}

#[test]
fn readers_in_a_hundred_slots_hold_the_lock_together() {
    let lock = ShardedLock::default();
    let t = 100;
    let data: usize = t;
    for i in 0..t {
        assert!(lock.try_read(i, 1));
        assert_eq!(data, t);
    }
    for i in 0..t {
        assert_eq!(lock.readers_at(i), 1);
    }
    assert!(lock.claim_writer(1));
    assert!(!lock.await_readers(10));
    for i in 0..t {
        assert!(lock.read_unlock(i));
    }
    assert!(lock.await_readers(1));
}

#[test]
fn writers_in_turn_count_up_to_their_number() {
    let lock = ShardedLock::default();
    let mut shared: usize = 0;
    for _ in 0..100 {
        assert!(lock.claim_writer(1));
        assert!(lock.await_readers(1));
        shared += 1;
        assert!(lock.write_unlock());
    }
    assert_eq!(shared, 100);
}

#[test]
fn writer_unlock_without_lock_is_reported() {
    let lock = ShardedLock::default();
    assert!(!lock.write_unlock());
    assert_eq!(lock.writer_present(), false);
}

#[test]
fn reader_unlock_without_lock_is_reported() {
    let lock = ShardedLock::default();
    assert!(!lock.read_unlock(1));
}

#[test]
fn reader_does_not_get_in_after_a_writer() {
    let lock = ShardedLock::default();
    assert!(lock.claim_writer(1) && lock.await_readers(1));
    assert!(!lock.try_read(0, 1000));
    assert_eq!(lock.readers_at(0), 0);
    assert!(lock.write_unlock());
    assert!(lock.try_read(0, 1));
}

#[test]
fn writer_does_not_get_in_after_a_reader() {
    let lock = ShardedLock::default();
    assert!(lock.try_read(0, 1));
    assert!(lock.claim_writer(1));
    assert!(!lock.await_readers(1000));
    assert!(lock.read_unlock(0));
    assert!(lock.await_readers(1));
}

#[test]
fn writer_does_not_get_in_after_a_writer() {
    let lock = ShardedLock::default();
    assert!(lock.claim_writer(1));
    assert!(!lock.claim_writer(1000));
    assert!(lock.write_unlock());
    assert!(lock.claim_writer(1));
}

#[test]
fn no_attempts_take_nothing() {
    let lock = ShardedLock::new(4);
    assert!(!lock.claim_writer(0));
    assert!(!lock.await_readers(0));
    assert!(!lock.try_read(0, 0));
    assert_eq!(lock.writer_present(), false);
    assert_eq!(lock.readers_at(0), 0);
}

#[test]
fn writer_looks_only_at_the_active_slots() {
    let lock = ShardedLock::new(2);
    assert_eq!(lock.slots(), 2);
    assert!(lock.try_read(1, 1));
    assert!(!lock.readers_idle());
    assert!(lock.read_unlock(1));
    assert!(lock.readers_idle());
}

#[test]
fn scan_moves_follow_the_counter_and_the_slot() {
    assert_eq!(scan_move(1, 0, 3), ScanMove::Restart);
    assert_eq!(scan_move(7, 2, 3), ScanMove::Restart);
    assert_eq!(scan_move(0, 0, 3), ScanMove::Advance);
    assert_eq!(scan_move(0, 1, 3), ScanMove::Advance);
    assert_eq!(scan_move(0, 2, 3), ScanMove::Done);
    assert_eq!(scan_move(0, 0, 1), ScanMove::Done);
}

#[test]
fn reader_moves_follow_the_flag() {
    assert_eq!(reader_move(false), ReaderMove::Enter);
    assert_eq!(reader_move(true), ReaderMove::Retreat);
}

#[test]
fn topology_numbers_the_threads_of_a_socket() {
    let t = MachineTopology::new();
    let cpus = t.cpus_on_socket(0);
    assert_eq!(cpus.len(), MAX_READER_THREADS);
    assert_eq!(cpus[0], 0);
    assert_eq!(cpus[191], 191);
    let small = MachineTopology::with_threads(3).unwrap();
    assert_eq!(small.cpus_on_socket(0), vec![0, 1, 2]);
    assert_eq!(small.cpus_on_socket(1), vec![0, 1, 2]);
    assert!(MachineTopology::with_threads(0).is_none());
    assert!(MachineTopology::with_threads(193).is_none());
    assert!(MachineTopology::with_threads(192).is_some());
}

#[test]
fn reader_unlock_goes_by_the_counter_before() {
    assert!(!reader_held(0));
    assert!(reader_held(1));
    assert!(reader_held(usize::MAX));
}
