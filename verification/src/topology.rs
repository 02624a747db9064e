//! Who can be addressed: ranks, communicators and the processes in them.

use vstd::prelude::*;
use crate::raw::{AsRaw, CommHandle, RawCommunicator};

verus! {

/// The identity of a peer in a communicator.
///
/// `AnySource` matches every sender and is meaningful only where a message is
/// received or probed.  `NullProcess` is the peer that swallows what is sent
/// to it and never delivers anything.
#[derive(Clone, Copy, Debug, PartialEq, Eq, Structural)]
pub enum Rank {
    Process(i32),
    AnySource,
    NullProcess,
}

impl Rank {
    /// Whether a receive or probe posted for `self` takes a message that
    /// the process with rank `sender` sent: the wildcard takes every
    /// sender, a process only itself, the null process nobody.
    pub open spec fn accepts(self, sender: i32) -> bool {
        self is AnySource || self == Rank::Process(sender)
    }

    /// Whether a receive or probe posted for `self` takes a message that
    /// the process with rank `sender` sent.
    pub fn takes(&self, sender: i32) -> (b: bool)
        ensures
            b == self.accepts(sender),
    {
        match *self {
            Rank::AnySource => true,
            Rank::Process(rank) => rank == sender,
            Rank::NullProcess => false,
        }
    }
}

/// A communicator: a closed group of `size` processes, seen from the process
/// whose rank in it is `rank`.
#[derive(Debug)]
pub struct SystemCommunicator {
    handle: CommHandle,
    size: i32,
    rank: i32,
}

impl SystemCommunicator {
    #[verifier::type_invariant]
    spec fn well_formed(self) -> bool {
        0 <= self.rank < self.size
    }

    /// The number of processes, as contracts see it.
    pub closed spec fn spec_size(&self) -> int {
        self.size as int
    }

    /// The calling process's rank, as contracts see it.
    pub closed spec fn spec_rank(&self) -> int {
        self.rank as int
    }

    /// The communicator behind `handle`, or `None` where `rank` does not lie
    /// in `[0, size)`.
    pub fn new(handle: CommHandle, size: i32, rank: i32) -> (c: Option<Self>)
        ensures
            c is Some <==> 0 <= rank < size,
            c matches Some(comm) ==> comm.raw() == handle && comm.spec_size() == size
                && comm.spec_rank() == rank,
    {
        if 0 <= rank && rank < size {
            Some(SystemCommunicator { handle, size, rank })
        } else {
            None
        }
    }

    /// The number of processes in the communicator.
    pub fn size(&self) -> (n: i32)
        ensures
            n == self.spec_size(),
            n > 0,
    {
        proof {
            use_type_invariant(self);
        }
        self.size
    }

    /// The rank of the calling process.
    pub fn rank(&self) -> (r: i32)
        ensures
            r == self.spec_rank(),
            0 <= r < self.spec_size(),
    {
        proof {
            use_type_invariant(self);
        }
        self.rank
    }

    /// The process with rank `rank`, or `None` where the communicator has no
    /// such process.
    pub fn process_at_rank(&self, rank: i32) -> (p: Option<Identifier<'_, SystemCommunicator>>)
        ensures
            p is Some <==> 0 <= rank < self.spec_size(),
            p matches Some(id) ==> id.peer() == Rank::Process(rank) && id.raw() == self.raw(),
    {
        if 0 <= rank && rank < self.size {
            Some(Identifier { comm: self, rank: Rank::Process(rank) })
        } else {
            None
        }
    }

    /// The null process of this communicator.
    pub fn null_process(&self) -> (p: Identifier<'_, SystemCommunicator>)
        ensures
            p.peer() == Rank::NullProcess,
            p.raw() == self.raw(),
    {
        Identifier { comm: self, rank: Rank::NullProcess }
    }
}

impl AsRaw for SystemCommunicator {
    type Raw = CommHandle;

    closed spec fn raw(&self) -> CommHandle {
        self.handle
    }

    fn as_raw(&self) -> (raw: CommHandle) {
        self.handle
    }
}

/// One process of a communicator, or its null process.
#[derive(Debug)]
pub struct Identifier<'a, C: 'a + RawCommunicator> {
    comm: &'a C,
    rank: Rank,
}

impl<'a, C: 'a + RawCommunicator> Identifier<'a, C> {
    #[verifier::type_invariant]
    spec fn addressable(self) -> bool {
        self.rank !is AnySource
    }

    /// The peer that is identified, as contracts see it.
    pub closed spec fn peer(&self) -> Rank {
        self.rank
    }

    /// The rank of the identified process.
    pub fn rank(&self) -> (r: Rank)
        ensures
            r == self.peer(),
            r !is AnySource,
    {
        proof {
            use_type_invariant(self);
        }
        self.rank
    }
}

impl<'a, C: 'a + RawCommunicator> AsRaw for Identifier<'a, C> {
    type Raw = CommHandle;

    closed spec fn raw(&self) -> CommHandle {
        self.comm.raw()
    }

    fn as_raw(&self) -> (raw: CommHandle) {
        self.comm.as_raw()
    }
}

} // verus!
