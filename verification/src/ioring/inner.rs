use vstd::prelude::*;

use windows_sys::Win32::Storage::FileSystem::{IORING_OP_CODE, IORING_VERSION};

use super::op::IoRingOp;
use super::util::Array;

verus! {

/// Flags that a ring must honour; there are none.
#[derive(Debug, Clone, Copy, PartialEq, Eq, Structural)]
pub enum IoRingCreateReqFlags {
    NoFlags,
}

impl IoRingCreateReqFlags {
    /// The flag's numeric value.
    pub fn value(&self) -> (r: i32)
        ensures
            r == 0,
    {
        0
    }
}

/// Flags that a ring may honour; there are none.
#[derive(Debug, Clone, Copy, PartialEq, Eq, Structural)]
pub enum IoRingCreateAdFlags {
    NoFlags,
}

impl IoRingCreateAdFlags {
    /// The flag's numeric value.
    pub fn value(&self) -> (r: i32)
        ensures
            r == 0,
    {
        0
    }
}

/// The flags a ring is created with.
#[derive(Debug, Clone, Copy, PartialEq, Eq, Structural)]
pub struct IoRingCreateFlags {
    pub required: IoRingCreateReqFlags,
    pub advisory: IoRingCreateAdFlags,
}

/// Options of a submission entry.
#[derive(Debug, Clone, Copy, PartialEq, Eq, Structural)]
pub enum SqueueEntryFlags {
    NoFlags,
    /// Start the entry only once every entry before it has completed.
    Drain,
}

impl SqueueEntryFlags {
    /// The option's numeric value.
    pub open spec fn spec_value(self) -> i32 {
        match self {
            SqueueEntryFlags::NoFlags => 0,
            SqueueEntryFlags::Drain => 1,
        }
    }

    /// The option's numeric value.
    pub fn value(&self) -> (r: i32)
        ensures
            r == self.spec_value(),
            *self == SqueueEntryFlags::NoFlags ==> r == 0,
            *self == SqueueEntryFlags::Drain ==> r == 1,
    {
        match self {
            SqueueEntryFlags::NoFlags => 0,
            SqueueEntryFlags::Drain => 1,
        }
    }
}

/// One entry of the submission queue: an operation, its code and options, and the value handed
/// back with its completion.
#[derive(Debug, Clone, Copy, PartialEq, Eq)]
pub struct SqueueEntry {
    pub opcode: IORING_OP_CODE,
    pub flags: SqueueEntryFlags,
    pub data: u64,
    pub op: IoRingOp,
}

/// The submission queue: the positions where the kernel reads and where entries are added, and
/// the entries.
pub struct SqueueHead {
    pub head: u32,
    pub tail: u32,
    pub entries: Array<SqueueEntry>,
}

/// The submission queue as the ring's memory lays it out.
pub enum SqueueInner {
    Base(SqueueHead),
    Padding(u64),
}

/// The completion queue's read and write positions.
#[derive(Debug, Clone, Copy, PartialEq, Eq, Structural)]
pub struct CqueueHead {
    pub head: u64,
    pub tail: u64,
}

/// The completion queue as the ring's memory lays it out.
#[derive(Debug, Clone, Copy, PartialEq, Eq, Structural)]
pub enum CqueueInner {
    Base(CqueueHead),
    Padding(u64),
}

/// The memory of a ring that the kernel shares with the process: its description, and its
/// submission and completion queues.
pub struct IoRingInner {
    pub rtype: u32,
    pub size: u32,
    pub version: IORING_VERSION,
    pub flags: IoRingCreateFlags,
    pub squeue_size: u32,
    pub squeue_mask: u32,
    pub cqueue_size: u32,
    pub cqueue_mask: u32,
    pub squeue: SqueueInner,
    pub cqueue: CqueueInner,
}

} // verus!
