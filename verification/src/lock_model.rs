//! The protocol of the sharded reader-writer lock as a transition system
//! over plain values, and what holds of every run of it.
//!
//! A state records the writer flag and the reader counters, and beside them
//! who has come how far: how many writers own the flag and still wait for the
//! readers to drain, how many hold the lock for writing, and for each slot how
//! many readers have raised its counter without holding the lock yet and how
//! many hold it for reading. One step is one access to one word, as the lock's
//! functions make them, taken one at a time in any order.

use vstd::prelude::*;

verus! {

/// What the writer that owns the flag does after a look at one reader
/// counter.
#[derive(Debug, Clone, Copy, PartialEq, Eq, Structural)]
pub enum ScanMove {
    /// The counter was not zero: the look is lost, and the next one starts
    /// at the first slot.
    Restart,
    /// The counter was zero and slots are left: on to the next one.
    Advance,
    /// The counter was zero and it was the last slot: the readers have
    /// drained, and the writer holds the lock.
    Done,
}

/// What a reader does after it has raised the counter of its slot and
/// looked at the writer flag once more.
#[derive(Debug, Clone, Copy, PartialEq, Eq, Structural)]
pub enum ReaderMove {
    /// The flag was lowered: the reader holds the lock.
    Enter,
    /// The flag was raised: the reader lowers its counter and starts over.
    Retreat,
}

/// The writer's move after it has read `counter` in slot `scanned`, the
/// slots before it having read zero, of `active` slots.
pub open spec fn spec_scan_move(counter: nat, scanned: nat, active: nat) -> ScanMove {
    if counter != 0 {
        ScanMove::Restart
    } else if scanned + 1 == active {
        ScanMove::Done
    } else {
        ScanMove::Advance
    }
}

/// The reader's move after it has raised its counter and read the flag.
pub open spec fn spec_reader_move(flag_raised: bool) -> ReaderMove {
    if flag_raised {
        ReaderMove::Retreat
    } else {
        ReaderMove::Enter
    }
}

/// Whether a reader that lowers the counter of its slot had held the lock,
/// going by what the counter read before: it had where that was above zero.
pub open spec fn spec_reader_held(previous: nat) -> bool {
    previous != 0
}

/// The words of the lock, and how far each party has come.
pub struct LockState {
    /// The writer flag.
    pub write_flag: bool,
    /// The reader counters that a writer inspects.
    pub slots: Seq<nat>,
    /// Writers that own the flag and wait for the readers to drain.
    pub draining: nat,
    /// How many slots the waiting writer has seen at zero in its present look.
    pub scanned: nat,
    /// Writers that hold the lock.
    pub writing: nat,
    /// For each slot, readers that raised the counter and have not yet looked
    /// at the flag again, or have seen it raised and not yet stepped back.
    pub announced: Seq<nat>,
    /// For each slot, readers that hold the lock.
    pub reading: Seq<nat>,
}

/// One access to one word of the lock.
pub enum LockStep {
    /// A writer raises the flag from lowered.
    Claim,
    /// The writer that owns the flag looks at the next reader counter.
    Scan,
    /// A reader that has seen the flag lowered raises the counter of its slot.
    Announce { tid: nat },
    /// A reader that raised its counter sees the flag lowered and holds the lock.
    Enter { tid: nat },
    /// A reader that raised its counter lowers it again without the lock.
    Retreat { tid: nat },
    /// A reader gives the lock back and lowers its counter.
    ReaderExit { tid: nat },
    /// The writer gives the lock back and lowers the flag.
    WriterExit,
}

impl LockState {
    /// A free lock with `active` reader slots.
    pub open spec fn initial(active: nat) -> LockState {
        LockState {
            write_flag: false,
            slots: Seq::new(active, |i: int| 0nat),
            draining: 0,
            scanned: 0,
            writing: 0,
            announced: Seq::new(active, |i: int| 0nat),
            reading: Seq::new(active, |i: int| 0nat),
        }
    }

    /// The number of reader slots.
    pub open spec fn active(self) -> nat {
        self.slots.len()
    }

    /// What holds of every state that a run reaches: the flag is raised
    /// exactly while one writer owns it, each counter counts the readers of
    /// its slot that raised it, and no reader holds the lock in a slot that
    /// the waiting writer has seen at zero, nor in any slot while a writer
    /// holds the lock.
    pub open spec fn inv(self) -> bool {
        &&& self.active() > 0
        &&& self.announced.len() == self.active()
        &&& self.reading.len() == self.active()
        &&& self.draining + self.writing == (if self.write_flag { 1nat } else { 0nat })
        &&& forall|i: int|
            0 <= i < self.active() ==> #[trigger] self.slots[i] == self.announced[i]
                + self.reading[i]
        &&& self.draining == 1 ==> self.scanned < self.active() && forall|i: int|
            0 <= i < self.scanned ==> #[trigger] self.reading[i] == 0
        &&& self.writing == 1 ==> forall|i: int|
            0 <= i < self.active() ==> #[trigger] self.reading[i] == 0
    }

    /// Whether the step can be taken in this state.
    pub open spec fn enabled(self, step: LockStep) -> bool {
        match step {
            LockStep::Claim => !self.write_flag,
            LockStep::Scan => self.draining == 1,
            LockStep::Announce { tid } => tid < self.active(),
            LockStep::Enter { tid } => tid < self.active() && self.announced[tid as int] > 0
                && spec_reader_move(self.write_flag) == ReaderMove::Enter,
            LockStep::Retreat { tid } => tid < self.active() && self.announced[tid as int] > 0,
            LockStep::ReaderExit { tid } => tid < self.active() && self.reading[tid as int] > 0,
            LockStep::WriterExit => self.writing == 1,
        }
    }

    /// The state after the step; a step that cannot be taken changes nothing.
    pub open spec fn next(self, step: LockStep) -> LockState {
        if !self.enabled(step) {
            self
        } else {
            match step {
                LockStep::Claim => LockState { write_flag: true, draining: 1, scanned: 0, ..self },
                LockStep::Scan => match spec_scan_move(
                    self.slots[self.scanned as int],
                    self.scanned,
                    self.active(),
                ) {
                    ScanMove::Restart => LockState { scanned: 0, ..self },
                    ScanMove::Done => LockState { draining: 0, scanned: 0, writing: 1, ..self },
                    ScanMove::Advance => LockState { scanned: self.scanned + 1, ..self },
                },
                LockStep::Announce { tid } => LockState {
                    slots: self.slots.update(tid as int, self.slots[tid as int] + 1),
                    announced: self.announced.update(tid as int, self.announced[tid as int] + 1),
                    ..self
                },
                LockStep::Enter { tid } => LockState {
                    announced: self.announced.update(
                        tid as int,
                        (self.announced[tid as int] - 1) as nat,
                    ),
                    reading: self.reading.update(tid as int, self.reading[tid as int] + 1),
                    ..self
                },
                LockStep::Retreat { tid } => LockState {
                    slots: self.slots.update(tid as int, (self.slots[tid as int] - 1) as nat),
                    announced: self.announced.update(
                        tid as int,
                        (self.announced[tid as int] - 1) as nat,
                    ),
                    ..self
                },
                LockStep::ReaderExit { tid } => LockState {
                    slots: self.slots.update(tid as int, (self.slots[tid as int] - 1) as nat),
                    reading: self.reading.update(tid as int, (self.reading[tid as int] - 1) as nat),
                    ..self
                },
                LockStep::WriterExit => LockState { write_flag: false, writing: 0, ..self },
            }
        }
    }

    /// The state after a sequence of steps, the first one first.
    pub open spec fn run(self, steps: Seq<LockStep>) -> LockState
        decreases steps.len(),
    {
        if steps.len() == 0 {
            self
        } else {
            self.run(steps.drop_last()).next(steps.last())
        }
    }

    /// The number of readers that hold the lock in slot `tid`.
    pub open spec fn readers(self, tid: int) -> nat {
        self.reading[tid]
    }
}

/// A free lock satisfies the invariant.
pub proof fn lemma_lock_initial(active: nat)
    requires
        active > 0,
    ensures
        LockState::initial(active).inv(),
{
}

/// Every step keeps the invariant.
pub proof fn lemma_lock_step(s: LockState, step: LockStep)
    requires
        s.inv(),
    ensures
        s.next(step).inv(),
{
    let t = s.next(step);
    if s.enabled(step) {
        match step {
            LockStep::Scan => {
                assert(s.slots[s.scanned as int] == s.announced[s.scanned as int]
                    + s.reading[s.scanned as int]);
            },
            _ => {},
        }
        assert forall|i: int| 0 <= i < t.active() implies #[trigger] t.slots[i] == t.announced[i]
            + t.reading[i] by {
            assert(s.slots[i] == s.announced[i] + s.reading[i]);
        }
    }
}

/// Every run from a free lock ends in a state that satisfies the invariant.
pub proof fn lemma_lock_run(active: nat, steps: Seq<LockStep>)
    requires
        active > 0,
    ensures
        LockState::initial(active).run(steps).inv(),
    decreases steps.len(),
{
    if steps.len() == 0 {
        lemma_lock_initial(active);
    } else {
        lemma_lock_run(active, steps.drop_last());
        lemma_lock_step(LockState::initial(active).run(steps.drop_last()), steps.last());
    }
}

/// At most one writer holds the lock at any instant of any run, and while
/// one does, no second writer can raise the flag.
pub proof fn lemma_one_writer(active: nat, steps: Seq<LockStep>)
    requires
        active > 0,
    ensures
        ({
            let s = LockState::initial(active).run(steps);
            &&& s.writing <= 1
            &&& s.writing == 1 ==> !s.enabled(LockStep::Claim)
        }),
{
    lemma_lock_run(active, steps);
}

/// A reader and a writer never hold the lock together: at any instant of
/// any run in which a writer holds it, no slot has a reader that holds it,
/// and no reader can come to hold it.
pub proof fn lemma_readers_exclude_writer(active: nat, steps: Seq<LockStep>, tid: nat)
    requires
        active > 0,
        tid < active,
    ensures
        ({
            let s = LockState::initial(active).run(steps);
            &&& s.active() == active
            &&& s.writing == 1 ==> s.readers(tid as int) == 0
            &&& s.writing == 1 ==> !s.enabled(LockStep::Enter { tid })
            &&& s.readers(tid as int) > 0 ==> s.writing == 0
        }),
{
    lemma_lock_run(active, steps);
    lemma_run_keeps_slots(LockState::initial(active), steps);
}

/// No step changes the number of reader slots.
pub proof fn lemma_run_keeps_slots(s: LockState, steps: Seq<LockStep>)
    ensures
        s.run(steps).active() == s.active(),
    decreases steps.len(),
{
    if steps.len() > 0 {
        lemma_run_keeps_slots(s, steps.drop_last());
    }
}

/// Who holds the lock is never taken for one who does not: at any instant of
/// any run, the counter of a slot in which a reader holds the lock reads
/// above zero, and the flag is raised while a writer holds the lock.
pub proof fn lemma_holders_are_known(active: nat, steps: Seq<LockStep>, tid: nat)
    requires
        active > 0,
        tid < active,
    ensures
        ({
            let s = LockState::initial(active).run(steps);
            &&& s.readers(tid as int) > 0 ==> spec_reader_held(s.slots[tid as int])
            &&& s.readers(tid as int) > 0 ==> s.enabled(LockStep::ReaderExit { tid })
            &&& s.writing == 1 ==> s.write_flag && s.enabled(LockStep::WriterExit)
        }),
{
    lemma_lock_run(active, steps);
    lemma_run_keeps_slots(LockState::initial(active), steps);
}

} // verus!
