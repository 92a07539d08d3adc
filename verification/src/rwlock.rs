//! The words of the sharded reader-writer lock and the steps that readers and
//! writers take on them.

use vstd::prelude::*;
use core::sync::atomic::{AtomicBool, AtomicUsize, Ordering};
use crossbeam_utils::CachePadded;
use crate::lock_model::{spec_reader_held, spec_reader_move, spec_scan_move, ReaderMove, ScanMove};
use crate::topology::MachineTopology;

verus! {

/// Maximum number of reader threads that this lock supports.
pub const MAX_READER_THREADS: usize = 192;

/// `core::hint::spin_loop` tells the processor that the caller spins. It
/// takes nothing and returns nothing.
pub assume_specification[ core::hint::spin_loop ]();

/// The writer's move after it has read `counter` in slot `scanned`, the
/// slots before it having read zero, of `active` slots: a counter above zero
/// loses the look, the last slot at zero ends the wait, and any other slot at
/// zero leads on to the next.
pub fn scan_move(counter: usize, scanned: usize, active: usize) -> (m: ScanMove)
    requires
        scanned < active,
    ensures
        m == spec_scan_move(counter as nat, scanned as nat, active as nat),
{
    if counter != 0 {
        ScanMove::Restart
    } else if scanned + 1 == active {
        ScanMove::Done
    } else {
        ScanMove::Advance
    }
}

/// The reader's move after it has raised its counter and read the flag: it
/// holds the lock where the flag was lowered, and steps back where it was
/// raised.
pub fn reader_move(flag_raised: bool) -> (m: ReaderMove)
    ensures
        m == spec_reader_move(flag_raised),
{
    if flag_raised {
        ReaderMove::Retreat
    } else {
        ReaderMove::Enter
    }
}

/// The words of a scalable reader-writer lock.
///
/// This lock favours reader performance over writers. Each reader thread gets
/// its own counter while writers share a single flag.
pub struct ShardedLock {
    /// The writer flag. There can be at most one writer at any given point of time.
    wlock: CachePadded<AtomicBool>,
    /// Each reader uses an individual counter.
    rlock: Vec<CachePadded<AtomicUsize>>,
    /// The number of reader slots that a writer inspects.
    max_thread: usize,
}

impl Default for ShardedLock {
    /// A free lock whose writers inspect one reader slot for each hardware
    /// thread on socket 0.
    fn default() -> (lock: ShardedLock)
        ensures
            lock.active_slots() == MAX_READER_THREADS,
    {
        let threads: usize = MachineTopology::new().cpus_on_socket(0).len();
        ShardedLock::new(threads)
    }
}

impl ShardedLock {
    /// The number of reader slots that a writer inspects.
    pub closed spec fn active_slots(&self) -> nat {
        self.max_thread as nat
    }

    /// A lock is built with all its reader slots, of which a writer inspects
    /// the first `active_slots`, at least one.
    #[verifier::type_invariant]
    spec fn wf(&self) -> bool {
        &&& self.rlock@.len() == MAX_READER_THREADS
        &&& 0 < self.max_thread <= MAX_READER_THREADS
    }

    /// A free lock whose writers inspect the first `active` reader slots.
    pub fn new(active: usize) -> (lock: ShardedLock)
        requires
            0 < active <= MAX_READER_THREADS,
        ensures
            lock.active_slots() == active,
    {
        let mut rlock: Vec<CachePadded<AtomicUsize>> = Vec::new();
        while rlock.len() < MAX_READER_THREADS
            invariant
                rlock@.len() <= MAX_READER_THREADS,
            decreases MAX_READER_THREADS - rlock@.len(),
        {
            rlock.push(CachePadded::new(AtomicUsize::new(0)));
        }
        ShardedLock { wlock: CachePadded::new(AtomicBool::new(false)), rlock, max_thread: active }
    }

    /// Step 1 of taking the lock for writing: tries up to `attempts` times
    /// to raise the writer flag from lowered, and says whether it did. The
    /// caller that gets `true` owns the flag and goes on to
    /// `await_readers`; one that gets `false` owns nothing.
    pub fn claim_writer(&self, attempts: usize) -> (claimed: bool)
        ensures
            attempts == 0 ==> !claimed,
    {
        let mut left: usize = attempts;
        while left > 0
            invariant
                left <= attempts,
            decreases left,
        {
            left = left - 1;
            let swapped = self.wlock.compare_exchange(
                false,
                true,
                Ordering::Acquire,
                Ordering::Acquire,
            );
            if swapped.is_ok() {
                return true;
            }
            core::hint::spin_loop();
        }
        false
    }

    /// One look at the reader slots that a writer inspects, from the first
    /// on: whether each read zero when it was looked at. The look ends at the
    /// first counter above zero.
    pub fn readers_idle(&self) -> (idle: bool) {
        proof {
            use_type_invariant(self);
        }
        let mut idx: usize = 0;
        while idx < self.max_thread
            invariant
                self.rlock@.len() == MAX_READER_THREADS,
                self.max_thread <= MAX_READER_THREADS,
                idx <= self.max_thread,
            decreases self.max_thread - idx,
        {
            match scan_move(self.rlock[idx].load(Ordering::Relaxed), idx, self.max_thread) {
                ScanMove::Restart => { return false; },
                ScanMove::Done => { return true; },
                ScanMove::Advance => { idx = idx + 1; },
            }
        }
        true
    }

    /// Step 2 of taking the lock for writing, for the owner of the flag:
    /// looks at the reader slots up to `attempts` times, until each of them
    /// read zero, and says whether that came about. With `true` the caller
    /// holds the lock for writing; with `false` it still owns the flag and
    /// may call again.
    pub fn await_readers(&self, attempts: usize) -> (drained: bool)
        ensures
            attempts == 0 ==> !drained,
    {
        let mut left: usize = attempts;
        while left > 0
            invariant
                left <= attempts,
            decreases left,
        {
            left = left - 1;
            if self.readers_idle() {
                return true;
            }
            core::hint::spin_loop();
        }
        false
    }

    /// Takes the lock for reading in slot `tid`, in up to `attempts` rounds,
    /// and says whether it did. A round waits where the writer flag is
    /// raised; else it raises the slot's counter and looks at the flag once
    /// more: lowered, the caller holds the lock for reading; raised, the
    /// counter is lowered again and the round is lost. With `false` the
    /// slot's counter is what it was.
    pub fn try_read(&self, tid: usize, attempts: usize) -> (held: bool)
        requires
            tid < self.active_slots(),
        ensures
            attempts == 0 ==> !held,
    {
        proof {
            use_type_invariant(self);
        }
        let mut left: usize = attempts;
        while left > 0
            invariant
                left <= attempts,
                self.rlock@.len() == MAX_READER_THREADS,
                tid < MAX_READER_THREADS,
            decreases left,
        {
            left = left - 1;
            if self.wlock.load(Ordering::Relaxed) {
                core::hint::spin_loop();
            } else {
                self.rlock[tid].fetch_add(1, Ordering::Acquire);
                match reader_move(self.wlock.load(Ordering::Relaxed)) {
                    ReaderMove::Enter => { return true; },
                    ReaderMove::Retreat => { self.rlock[tid].fetch_sub(1, Ordering::Release); },
                }
            }
        }
        false
    }

    /// Gives the lock back after writing: lowers the writer flag, and says
    /// whether it had been raised. `false` tells of a caller that did not
    /// hold the lock.
    pub fn write_unlock(&self) -> (was_held: bool) {
        self.wlock.compare_exchange(true, false, Ordering::Acquire, Ordering::Acquire).is_ok()
    }

    /// Gives the lock back after reading in slot `tid`: lowers the slot's
    /// counter, and says whether it had been above zero. `false` tells of a
    /// caller that did not hold the lock; the counter has then wrapped
    /// around, and the lock is of no more use.
    pub fn read_unlock(&self, tid: usize) -> (was_held: bool)
        requires
            tid < self.active_slots(),
    {
        proof {
            use_type_invariant(self);
        }
        reader_held(self.rlock[tid].fetch_sub(1, Ordering::Release))
    }

    /// What the counter of reader slot `tid` reads just now.
    pub fn readers_at(&self, tid: usize) -> (n: usize)
        requires
            tid < MAX_READER_THREADS,
    {
        proof {
            use_type_invariant(self);
        }
        self.rlock[tid].load(Ordering::Relaxed)
    }

    /// The number of reader slots that a writer inspects.
    pub fn slots(&self) -> (n: usize)
        ensures
            n == self.active_slots(),
    {
        self.max_thread
    }

    /// Whether a writer holds the flag just now.
    pub fn writer_present(&self) -> (present: bool) {
        self.wlock.load(Ordering::Relaxed)
    }
}

/// Whether a reader that has lowered the counter of its slot had held the
/// lock, going by what the counter read before: it had where that was above
/// zero.
pub fn reader_held(previous: usize) -> (held: bool)
    ensures
        held == spec_reader_held(previous as nat),
{
    previous != 0
}

} // verus!
