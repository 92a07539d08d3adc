//! How many hardware threads the lock has to reckon with.

use vstd::prelude::*;
use crate::rwlock::MAX_READER_THREADS;

verus! {

/// The hardware threads of the machine, as far as the lock needs them.
#[derive(Debug, Clone, Copy)]
pub struct MachineTopology {
    threads_per_socket: usize,
}

impl MachineTopology {
    /// The number of hardware threads on each socket.
    pub closed spec fn threads(&self) -> nat {
        self.threads_per_socket as nat
    }

    /// The topology that the lock is sized for: as many hardware threads on
    /// a socket as the lock has reader slots.
    pub fn new() -> (t: MachineTopology)
        ensures
            t.threads() == MAX_READER_THREADS,
    {
        MachineTopology { threads_per_socket: MAX_READER_THREADS }
    }

    /// A topology with the given number of hardware threads on each socket,
    /// or none where the number is 0 or above what the lock supports.
    pub fn with_threads(threads: usize) -> (t: Option<MachineTopology>)
        ensures
            t is Some <==> 0 < threads <= MAX_READER_THREADS,
            t is Some ==> t->Some_0.threads() == threads,
    {
        if 0 < threads && threads <= MAX_READER_THREADS {
            Some(MachineTopology { threads_per_socket: threads })
        } else {
            None
        }
    }

    /// The hardware threads on a socket, numbered from 0. Every socket has
    /// the same number of them, at least one and no more than the lock has
    /// reader slots.
    pub fn cpus_on_socket(&self, socket: usize) -> (cpus: Vec<usize>)
        ensures
            cpus@.len() == self.threads(),
            forall|i: int| 0 <= i < cpus@.len() ==> cpus@[i] == i,
    {
        let mut cpus: Vec<usize> = Vec::new();
        let mut i: usize = 0;
        while i < self.threads_per_socket
            invariant
                i <= self.threads_per_socket,
                cpus@.len() == i,
                forall|j: int| 0 <= j < i ==> cpus@[j] == j,
            decreases self.threads_per_socket - i,
        {
            cpus.push(i);
            i = i + 1;
        }
        cpus
    }
}

} // verus!
