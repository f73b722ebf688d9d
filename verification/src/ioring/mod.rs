mod inner;
mod op;
mod util;

pub use inner::{
    CqueueHead, CqueueInner, IoRingCreateAdFlags, IoRingCreateFlags, IoRingCreateReqFlags,
    IoRingInner, SqueueEntry, SqueueEntryFlags, SqueueHead, SqueueInner,
};
pub use op::{BufferInfo, IoRingOp, IoRingOpFlags, OpRead, OpRegisterBuffers, RegBufferReqFlags};
pub use util::{Array, offset_slot, lemma_array_holds_first, lemma_offset_slot_steps_by_stride, lemma_offset_zero_is_first, lemma_read_after_write};

use vstd::prelude::*;

use windows_sys::Win32::Foundation::HANDLE;
use windows_sys::Win32::Storage::FileSystem::{IORING_OP_CODE, IORING_VERSION};

use crate::IoError;

verus! {

/// `IORING_VERSION_3`, the version of the ring interface that rings are created with.
pub open spec fn spec_ioring_version_3() -> IORING_VERSION {
    300
}

/// `IORING_OP_READ`, the code of a read.
pub open spec fn spec_op_read() -> IORING_OP_CODE {
    1
}

/// `IORING_OP_REGISTER_BUFFERS`, the code of a buffer registration.
pub open spec fn spec_op_register_buffers() -> IORING_OP_CODE {
    3
}

/// The value handed back with the completion of the entries this library builds.
pub open spec fn spec_entry_data() -> u64 {
    140
}

/// Reads `windows_sys::Win32::Storage::FileSystem::IORING_VERSION_3`, which the crate defines
/// as `300i32`.
#[verifier::external_body]
fn ioring_version_3() -> (r: IORING_VERSION)
    ensures
        r == spec_ioring_version_3(),
{
    windows_sys::Win32::Storage::FileSystem::IORING_VERSION_3
}

/// Reads `windows_sys::Win32::Storage::FileSystem::IORING_OP_READ`, which the crate defines as
/// `1i32`.
#[verifier::external_body]
fn op_read() -> (r: IORING_OP_CODE)
    ensures
        r == spec_op_read(),
{
    windows_sys::Win32::Storage::FileSystem::IORING_OP_READ
}

/// Reads `windows_sys::Win32::Storage::FileSystem::IORING_OP_REGISTER_BUFFERS`, which the crate
/// defines as `3i32`.
#[verifier::external_body]
fn op_register_buffers() -> (r: IORING_OP_CODE)
    ensures
        r == spec_op_register_buffers(),
{
    windows_sys::Win32::Storage::FileSystem::IORING_OP_REGISTER_BUFFERS
}

/// The room one submission entry takes in the ring's memory, counted in entries as the queue
/// lays them out: its size in bytes (64 on 64-bit Windows), since an offset into the queue steps
/// over that many entries.
pub const SQUEUE_ENTRY_STRIDE: usize = 64;

/// The place in the submission queue's entries where the entry at the tail goes.
pub open spec fn spec_tail_slot(head: SqueueHead, mask: u32) -> int {
    offset_slot(SQUEUE_ENTRY_STRIDE as int, (head.tail & mask) as int)
}

/// The submission queue mirrors the ring's memory (its offsets step by a submission entry's
/// room), and the entry at the tail has a place in it.
pub open spec fn spec_push_fits(ring: IoRingInner) -> bool {
    match ring.squeue {
        SqueueInner::Base(h) => {
            &&& h.entries.spec_stride() == SQUEUE_ENTRY_STRIDE
            &&& (h.tail & ring.squeue_mask) <= isize::MAX
            &&& spec_tail_slot(h, ring.squeue_mask) < h.entries@.len()
        },
        SqueueInner::Padding(_) => true,
    }
}

/// `new` is `old` with `entry` stored at the tail's place of the submission queue, where the
/// queue is laid out as a queue; nothing else differs, head and tail included.
pub open spec fn spec_pushed(old: IoRingInner, new: IoRingInner, entry: SqueueEntry) -> bool {
    &&& new.rtype == old.rtype
    &&& new.size == old.size
    &&& new.version == old.version
    &&& new.flags == old.flags
    &&& new.squeue_size == old.squeue_size
    &&& new.squeue_mask == old.squeue_mask
    &&& new.cqueue_size == old.cqueue_size
    &&& new.cqueue_mask == old.cqueue_mask
    &&& new.cqueue == old.cqueue
    &&& match (old.squeue, new.squeue) {
        (SqueueInner::Base(h), SqueueInner::Base(n)) => {
            &&& n.head == h.head
            &&& n.tail == h.tail
            &&& n.entries@ == h.entries@.update(spec_tail_slot(h, old.squeue_mask), entry)
            &&& n.entries.spec_stride() == h.entries.spec_stride()
        },
        (SqueueInner::Padding(p), SqueueInner::Padding(q)) => p == q,
        _ => false,
    }
}

/// The entry that reads `length` bytes of `file`, from byte `offset`, into `buffer`.
pub open spec fn spec_read_entry(file: HANDLE, buffer: HANDLE, offset: u64, length: u32) -> SqueueEntry {
    SqueueEntry {
        opcode: spec_op_read(),
        flags: SqueueEntryFlags::NoFlags,
        data: spec_entry_data(),
        op: IoRingOp::Read(
            OpRead {
                flags: IoRingOpFlags::NoFlags,
                padding: 0,
                file,
                buffer,
                offset,
                length,
                key: 0,
            },
        ),
    }
}

/// The entry that registers `count` buffers described by one buffer of `length` bytes at
/// `buffer`.
pub open spec fn spec_register_buffers_entry(buffer: HANDLE, count: u32, length: u32) -> SqueueEntry {
    SqueueEntry {
        opcode: spec_op_register_buffers(),
        flags: SqueueEntryFlags::NoFlags,
        data: spec_entry_data(),
        op: IoRingOp::RegisterBuffers(
            OpRegisterBuffers {
                flags: IoRingOpFlags::NoFlags,
                count,
                info: BufferInfo { address: buffer, length },
            },
        ),
    }
}

/// What a submission comes to once the kernel answered `res`.
pub open spec fn spec_submit_outcome(res: i32) -> Result<(), IoError> {
    if res == 0 {
        Ok(())
    } else {
        Err(IoError::Os(res))
    }
}

/// The arguments of the `CreateIoRing` call that creates a ring.
#[derive(Debug, Clone, Copy, PartialEq, Eq, Structural)]
pub struct IoRingCreateRequest {
    pub version: IORING_VERSION,
    pub flags: IoRingCreateFlags,
    pub submission_queue_size: u32,
    pub completion_queue_size: u32,
}

/// A ring of asynchronous file operations, known by its handle.
pub struct IoRing {
    pub handle: HANDLE,
}

impl IoRing {
    /// The arguments that create a ring for `entries` submissions: version 3, no flags, and a
    /// completion queue twice the size of the submission queue.
    pub fn create_request(entries: u32) -> (r: IoRingCreateRequest)
        requires
            2 * entries <= u32::MAX,
        ensures
            r.version == spec_ioring_version_3(),
            r.version == 300,
            r.flags == (IoRingCreateFlags {
                required: IoRingCreateReqFlags::NoFlags,
                advisory: IoRingCreateAdFlags::NoFlags,
            }),
            r.submission_queue_size == entries,
            r.completion_queue_size == 2 * entries,
    {
        IoRingCreateRequest {
            version: ioring_version_3(),
            flags: IoRingCreateFlags {
                required: IoRingCreateReqFlags::NoFlags,
                advisory: IoRingCreateAdFlags::NoFlags,
            },
            submission_queue_size: entries,
            completion_queue_size: entries * 2,
        }
    }

    /// The ring that creation handed back: none when the handle is null, and then the thread's
    /// last OS error tells why.
    pub fn from_created(handle: HANDLE) -> (r: Result<IoRing, IoError>)
        ensures
            handle == 0 ==> r == Err::<IoRing, IoError>(IoError::LastOs),
            handle != 0 ==> (r matches Ok(ring) && ring.handle == handle),
    {
        if handle == 0 {
            return Err(IoError::LastOs);
        }
        Ok(IoRing { handle })
    }

    /// Stores `entry` in the submission queue of `ring`, the memory of this ring, at the place of
    /// the queue's tail (the tail taken modulo the queue through its mask). The tail is not
    /// moved. A queue that is laid out as padding is left as it is.
    pub fn push_entry(&self, ring: &mut IoRingInner, entry: SqueueEntry)
        requires
            spec_push_fits(*old(ring)),
        ensures
            spec_pushed(*old(ring), *final(ring), entry),
            old(ring).squeue matches SqueueInner::Base(h) ==> (final(ring).squeue matches SqueueInner::Base(n)
                && n.head == h.head && n.tail == h.tail
                && n.entries@ == h.entries@.update(64 * ((h.tail & old(ring).squeue_mask) as int), entry)),
    {
        let mask: u32 = ring.squeue_mask;
        match &mut ring.squeue {
            SqueueInner::Base(squeue) => {
                let tail: isize = (squeue.tail & mask) as isize;
                squeue.entries.set_offset(tail, entry);
            },
            SqueueInner::Padding(_) => {},
        }
    }

    /// Stores, as [`push_entry`](Self::push_entry) does, the entry that reads `length` bytes of
    /// `file`, from byte `offset`, into `buffer`.
    pub fn push_entry_read(
        &self,
        ring: &mut IoRingInner,
        file: HANDLE,
        buffer: HANDLE,
        offset: u64,
        length: u32,
    )
        requires
            spec_push_fits(*old(ring)),
        ensures
            spec_pushed(*old(ring), *final(ring), spec_read_entry(file, buffer, offset, length)),
            old(ring).squeue matches SqueueInner::Base(h) ==> (final(ring).squeue matches SqueueInner::Base(n)
                && n.entries@.len() == h.entries@.len()
                && ({
                    let e = n.entries@[64 * ((h.tail & old(ring).squeue_mask) as int)];
                    &&& e.opcode == 1
                    &&& e.flags == SqueueEntryFlags::NoFlags
                    &&& e.data == 140
                    &&& e.op matches IoRingOp::Read(rd)
                    &&& rd.flags == IoRingOpFlags::NoFlags
                    &&& rd.padding == 0
                    &&& rd.file == file
                    &&& rd.buffer == buffer
                    &&& rd.offset == offset
                    &&& rd.length == length
                    &&& rd.key == 0
                })),
    {
        self.push_entry(
            ring,
            SqueueEntry {
                opcode: op_read(),
                flags: SqueueEntryFlags::NoFlags,
                data: 140,
                op: IoRingOp::Read(
                    OpRead {
                        flags: IoRingOpFlags::NoFlags,
                        padding: 0,
                        file,
                        buffer,
                        offset,
                        length,
                        key: 0,
                    },
                ),
            },
        )
    }

    /// Stores, as [`push_entry`](Self::push_entry) does, the entry that registers `count`
    /// buffers described by one buffer of `length` bytes at `buffer`.
    pub fn push_entry_register_buffers(
        &self,
        ring: &mut IoRingInner,
        buffer: HANDLE,
        count: u32,
        length: u32,
    )
        requires
            spec_push_fits(*old(ring)),
        ensures
            spec_pushed(*old(ring), *final(ring), spec_register_buffers_entry(buffer, count, length)),
            old(ring).squeue matches SqueueInner::Base(h) ==> (final(ring).squeue matches SqueueInner::Base(n)
                && n.entries@.len() == h.entries@.len()
                && ({
                    let e = n.entries@[64 * ((h.tail & old(ring).squeue_mask) as int)];
                    &&& e.opcode == 3
                    &&& e.flags == SqueueEntryFlags::NoFlags
                    &&& e.data == 140
                    &&& e.op matches IoRingOp::RegisterBuffers(rb)
                    &&& rb.flags == IoRingOpFlags::NoFlags
                    &&& rb.count == count
                    &&& rb.info.address == buffer
                    &&& rb.info.length == length
                })),
    {
        self.push_entry(
            ring,
            SqueueEntry {
                opcode: op_register_buffers(),
                flags: SqueueEntryFlags::NoFlags,
                data: 140,
                op: IoRingOp::RegisterBuffers(
                    OpRegisterBuffers {
                        flags: IoRingOpFlags::NoFlags,
                        count,
                        info: BufferInfo { address: buffer, length },
                    },
                ),
            },
        )
    }

    /// Ends a submission that the kernel answered with `res`: done when `res` is zero, and
    /// otherwise `res` is the OS error.
    pub fn submit_result(res: i32) -> (r: Result<(), IoError>)
        ensures
            r == spec_submit_outcome(res),
            r is Ok <==> res == 0,
            res != 0 ==> r == Err::<(), IoError>(IoError::Os(res)),
    {
        if res != 0 {
            return Err(IoError::Os(res));
        }
        Ok(())
    }
}

/// The place of the tail is never past the mask: `tail & mask` is at most `mask`.
pub proof fn lemma_tail_index_within_mask(tail: u32, mask: u32)
    ensures
        tail & mask <= mask,
{
    assert(tail & mask <= mask) by (bit_vector);
}

/// When the queue holds `2^k` entries and its mask is `2^k - 1`, the tail's index is the tail
/// modulo the queue's size: the queue wraps around.
pub proof fn lemma_tail_index_wraps(tail: u32, k: nat, mask: u32)
    requires
        k < 32,
        mask == vstd::bits::low_bits_mask(k),
    ensures
        (tail & mask) as int == tail as int % vstd::arithmetic::power2::pow2(k) as int,
{
    vstd::bits::lemma_u32_pow2_no_overflow(k);
    vstd::bits::lemma_u32_low_bits_mask_is_mod(tail, k);
}

/// The tail's place is `64 * (tail & mask)` entries into the queue: the tail's index stepped by
/// a submission entry's room. When the queue holds `2^k` entries and its mask is `2^k - 1`, that
/// index is the tail modulo the queue's size.
pub proof fn lemma_tail_slot_is_masked_tail(head: SqueueHead, k: nat, mask: u32)
    ensures
        spec_tail_slot(head, mask) == 64 * ((head.tail & mask) as int),
        0 <= spec_tail_slot(head, mask) <= 64 * (mask as int),
        k < 32 && mask == vstd::bits::low_bits_mask(k) ==> spec_tail_slot(head, mask) == 64 * (
        head.tail as int % vstd::arithmetic::power2::pow2(k) as int),
{
    lemma_tail_index_within_mask(head.tail, mask);
    if k < 32 && mask == vstd::bits::low_bits_mask(k) {
        lemma_tail_index_wraps(head.tail, k, mask);
    }
}

/// A push of `entry` writes exactly the place `64 * (tail & mask)` of a laid-out submission
/// queue, keeps its head, tail and length, and changes nothing else of the ring.
pub proof fn lemma_push_writes_the_masked_tail(old: IoRingInner, new: IoRingInner, entry: SqueueEntry)
    requires
        spec_pushed(old, new, entry),
    ensures
        old.squeue matches SqueueInner::Base(h) ==> (new.squeue matches SqueueInner::Base(n)
            && n.head == h.head && n.tail == h.tail
            && n.entries@ == h.entries@.update(64 * ((h.tail & old.squeue_mask) as int), entry)),
        old.squeue matches SqueueInner::Padding(p) ==> new.squeue == SqueueInner::Padding(p),
        new.squeue_mask == old.squeue_mask,
        new.squeue_size == old.squeue_size,
        new.cqueue == old.cqueue,
{
}

/// The read entry carries its arguments unchanged: a read (`IORING_OP_READ`, code 1) of `length`
/// bytes of `file` from byte `offset` into `buffer`, with no flags, key 0 and completion value
/// 140.
pub proof fn lemma_read_entry_fields(file: HANDLE, buffer: HANDLE, offset: u64, length: u32)
    ensures
        ({
            let e = spec_read_entry(file, buffer, offset, length);
            &&& e.opcode == 1
            &&& e.flags == SqueueEntryFlags::NoFlags
            &&& e.data == 140
            &&& e.op matches IoRingOp::Read(rd)
            &&& rd.flags == IoRingOpFlags::NoFlags
            &&& rd.padding == 0
            &&& rd.file == file
            &&& rd.buffer == buffer
            &&& rd.offset == offset
            &&& rd.length == length
            &&& rd.key == 0
        }),
{
}

/// The registration entry carries its arguments unchanged: a buffer registration
/// (`IORING_OP_REGISTER_BUFFERS`, code 3) of `count` buffers described by `length` bytes at
/// address `buffer`, with no flags and completion value 140.
pub proof fn lemma_register_buffers_entry_fields(buffer: HANDLE, count: u32, length: u32)
    ensures
        ({
            let e = spec_register_buffers_entry(buffer, count, length);
            &&& e.opcode == 3
            &&& e.flags == SqueueEntryFlags::NoFlags
            &&& e.data == 140
            &&& e.op matches IoRingOp::RegisterBuffers(rb)
            &&& rb.flags == IoRingOpFlags::NoFlags
            &&& rb.count == count
            &&& rb.info.address == buffer
            &&& rb.info.length == length
        }),
{
}

/// A submission succeeds exactly when the kernel answers 0; any other answer is that OS error.
pub proof fn lemma_submit_outcome_cases(res: i32)
    ensures
        spec_submit_outcome(res) is Ok <==> res == 0,
        res != 0 ==> spec_submit_outcome(res) == Err::<(), IoError>(IoError::Os(res)),
{
}

/// After an entry was pushed, reading the submission queue at the tail's offset gives that entry
/// back.
pub proof fn lemma_pushed_entry_is_read_back(old: IoRingInner, new: IoRingInner, entry: SqueueEntry)
    requires
        spec_push_fits(old),
        spec_pushed(old, new, entry),
        old.squeue is Base,
    ensures
        new.squeue matches SqueueInner::Base(n) && n.entries@[spec_tail_slot(
            old.squeue->Base_0,
            old.squeue_mask,
        )] == entry,
{
}

} // verus!
