use win_async::{
    Array, BufferInfo, CqueueHead, CqueueInner, IoError, IoRing, IoRingCreateAdFlags,
    IoRingCreateFlags, IoRingCreateReqFlags, IoRingInner, IoRingOp, IoRingOpFlags, OpRead, SQUEUE_ENTRY_STRIDE,
    OpRegisterBuffers, RegBufferReqFlags, SqueueEntry, SqueueEntryFlags, SqueueHead,
    SqueueInner,
};

fn blank_entry() -> SqueueEntry {
    SqueueEntry { opcode: 0, flags: SqueueEntryFlags::NoFlags, data: 0, op: IoRingOp::Align([0u8; 34]) }
}

fn marked_entry(data: u64) -> SqueueEntry {
    SqueueEntry { opcode: 9, flags: SqueueEntryFlags::Drain, data, op: IoRingOp::Align([1u8; 34]) }
}

fn stride() -> usize {
    SQUEUE_ENTRY_STRIDE
}

/// A ring with a submission queue of `mask + 1` places, reached through the entries' stride.
fn ring_with(head: u32, tail: u32, mask: u32) -> IoRingInner {
    let len: usize = stride() * (mask as usize) + 1;
    let mut items: Vec<SqueueEntry> = Vec::new();
    for i in 0..len {
        items.push(marked_entry(i as u64));
    }
    IoRingInner {
        rtype: 1,
        size: 64,
        version: 300,
        flags: IoRingCreateFlags {
            required: IoRingCreateReqFlags::NoFlags,
            advisory: IoRingCreateAdFlags::NoFlags,
        },
        squeue_size: mask + 1,
        squeue_mask: mask,
        cqueue_size: 2 * (mask + 1),
        cqueue_mask: 2 * mask + 1,
        squeue: SqueueInner::Base(SqueueHead { head, tail, entries: Array::with_stride(items, SQUEUE_ENTRY_STRIDE) }),
        cqueue: CqueueInner::Base(CqueueHead { head: 4, tail: 5 }),
    }
}

fn squeue(ring: &IoRingInner) -> &SqueueHead {
    match &ring.squeue {
        SqueueInner::Base(h) => h,
        SqueueInner::Padding(_) => panic!("submission queue laid out as padding"),
    }
}

fn check_rest_unchanged(ring: &IoRingInner, head: u32, tail: u32, mask: u32) {
    assert_eq!(ring.rtype, 1);
    assert_eq!(ring.size, 64);
    assert_eq!(ring.version, 300);
    assert_eq!(ring.squeue_size, mask + 1);
    assert_eq!(ring.squeue_mask, mask);
    assert_eq!(ring.cqueue, CqueueInner::Base(CqueueHead { head: 4, tail: 5 }));
    let h = squeue(ring);
    assert_eq!(h.head, head);
    assert_eq!(h.tail, tail);
}

#[test]
fn create_request_sizes_and_version() {
    let r = IoRing::create_request(16);
    assert_eq!(r.version, 300);
    assert_eq!(r.submission_queue_size, 16);
    assert_eq!(r.completion_queue_size, 32);
    assert_eq!(
        r.flags,
        IoRingCreateFlags { required: IoRingCreateReqFlags::NoFlags, advisory: IoRingCreateAdFlags::NoFlags }
    );
    let edge = IoRing::create_request(u32::MAX / 2);
    assert_eq!(edge.completion_queue_size, u32::MAX - 1);
    let empty = IoRing::create_request(0);
    assert_eq!(empty.completion_queue_size, 0);
}

#[test]
fn from_created_checks_the_handle() {
    assert!(matches!(IoRing::from_created(0), Err(IoError::LastOs)));
    let ring = IoRing::from_created(77).unwrap();
    assert_eq!(ring.handle, 77);
    assert_eq!(IoRing::from_created(-1).unwrap().handle, -1);
}

#[test]
fn submit_result_maps_the_code() {
    assert_eq!(IoRing::submit_result(0), Ok(()));
    assert_eq!(IoRing::submit_result(-2147024809), Err(IoError::Os(-2147024809)));
    assert_eq!(IoRing::submit_result(1), Err(IoError::Os(1)));
}

#[test]
fn array_offsets_step_by_the_element_size() {
    let a: Array<u32> = Array::from_vec(vec![10, 20, 30, 40, 50, 60, 70, 80, 90]);
    assert_eq!(a.len(), 9);
    assert_eq!(*a.get_offset(0), 10);
    assert_eq!(*a.get_offset(1), 50);
    assert_eq!(*a.get_offset(2), 90);
    let b: Array<u8> = Array::from_vec(vec![1, 2, 3]);
    assert_eq!(*b.get_offset(2), 3);
}

#[test]
fn array_with_stride_steps_by_it() {
    let a: Array<u8> = Array::with_stride(vec![1, 2, 3, 4, 5, 6, 7], 3);
    assert_eq!(a.stride(), 3);
    assert_eq!(*a.get_offset(0), 1);
    assert_eq!(*a.get_offset(1), 4);
    assert_eq!(*a.get_offset(2), 7);
    let b: Array<u32> = Array::from_vec(vec![5]);
    assert_eq!(b.stride(), 4);
    assert_eq!(b.len(), 1);
    assert_eq!(*b.get_offset(0), 5);
}

#[test]
fn array_offset_zero_is_first() {
    let mut a: Array<u64> = Array::from_vec(vec![11]);
    assert_eq!(*a.get_offset(0), 11);
    a.set_offset(0, 12);
    assert_eq!(*a.get_offset(0), 12);
    assert_eq!(a.len(), 1);
}

#[test]
fn push_entry_uses_the_kernel_entry_stride() {
    assert_eq!(SQUEUE_ENTRY_STRIDE, 64);
    let ring_handle = IoRing::from_created(3).unwrap();
    let mut ring = ring_with(0, 1, 1);
    let entry = marked_entry(7777);
    ring_handle.push_entry(&mut ring, entry);
    let h = squeue(&ring);
    assert_eq!(h.entries.len(), 65);
    assert_eq!(*h.entries.get_offset(1), entry);
    assert_eq!(h.entries.stride(), 64);
}

#[test]
fn array_read_after_write() {
    let mut a: Array<u16> = Array::from_vec(vec![0; 8]);
    a.set_offset(1, 7);
    assert_eq!(*a.get_offset(1), 7);
    assert_eq!(*a.get_offset(0), 0);
    assert_eq!(*a.get_offset(3), 0);
    a.set_offset(3, 9);
    assert_eq!(*a.get_offset(1), 7);
    assert_eq!(*a.get_offset(3), 9);
    a.set_offset(1, 8);
    assert_eq!(*a.get_offset(1), 8);
}

#[test]
fn push_entry_writes_the_tail_place_only() {
    let ring_handle = IoRing::from_created(3).unwrap();
    let mut ring = ring_with(1, 6, 3);
    let entry = SqueueEntry { opcode: 5, flags: SqueueEntryFlags::NoFlags, data: 1234, op: IoRingOp::Align([7u8; 34]) };
    ring_handle.push_entry(&mut ring, entry);
    check_rest_unchanged(&ring, 1, 6, 3);
    let h = squeue(&ring);
    assert_eq!(*h.entries.get_offset(2), entry);
    for idx in [0isize, 1, 3] {
        let slot: u64 = (stride() as u64) * (idx as u64);
        assert_eq!(*h.entries.get_offset(idx), marked_entry(slot));
    }
}

#[test]
fn push_entry_wraps_the_tail() {
    let ring_handle = IoRing::from_created(3).unwrap();
    let mut ring = ring_with(0, 13, 7);
    let entry = SqueueEntry { opcode: 2, flags: SqueueEntryFlags::Drain, data: 99, op: IoRingOp::Align([2u8; 34]) };
    ring_handle.push_entry(&mut ring, entry);
    assert_eq!(13u32 & 7, 13 % 8);
    assert_eq!(*squeue(&ring).entries.get_offset(5), entry);
    check_rest_unchanged(&ring, 0, 13, 7);
}

#[test]
fn push_entry_does_not_move_the_tail() {
    let ring_handle = IoRing::from_created(3).unwrap();
    let mut ring = ring_with(0, 0, 3);
    ring_handle.push_entry(&mut ring, marked_entry(1));
    ring_handle.push_entry(&mut ring, marked_entry(2));
    assert_eq!(*squeue(&ring).entries.get_offset(0), marked_entry(2));
    assert_eq!(*squeue(&ring).entries.get_offset(1), marked_entry(stride() as u64));
    check_rest_unchanged(&ring, 0, 0, 3);
}

#[test]
fn push_entry_leaves_padding_alone() {
    let ring_handle = IoRing::from_created(3).unwrap();
    let mut ring = ring_with(0, 0, 3);
    ring.squeue = SqueueInner::Padding(55);
    ring_handle.push_entry(&mut ring, blank_entry());
    assert!(matches!(ring.squeue, SqueueInner::Padding(55)));
}

#[test]
fn push_entry_read_builds_a_read() {
    let ring_handle = IoRing::from_created(3).unwrap();
    let mut ring = ring_with(0, 1, 1);
    ring_handle.push_entry_read(&mut ring, 100, 200, 4096, 512);
    let expected = SqueueEntry {
        opcode: 1,
        flags: SqueueEntryFlags::NoFlags,
        data: 140,
        op: IoRingOp::Read(OpRead {
            flags: IoRingOpFlags::NoFlags,
            padding: 0,
            file: 100,
            buffer: 200,
            offset: 4096,
            length: 512,
            key: 0,
        }),
    };
    assert_eq!(*squeue(&ring).entries.get_offset(1), expected);
    assert_eq!(*squeue(&ring).entries.get_offset(0), marked_entry(0));
    check_rest_unchanged(&ring, 0, 1, 1);
}

#[test]
fn push_entry_register_buffers_builds_a_registration() {
    let ring_handle = IoRing::from_created(3).unwrap();
    let mut ring = ring_with(0, 2, 3);
    ring_handle.push_entry_register_buffers(&mut ring, 0x1000, 1, 10);
    let expected = SqueueEntry {
        opcode: 3,
        flags: SqueueEntryFlags::NoFlags,
        data: 140,
        op: IoRingOp::RegisterBuffers(OpRegisterBuffers {
            flags: IoRingOpFlags::NoFlags,
            count: 1,
            info: BufferInfo { address: 0x1000, length: 10 },
        }),
    };
    assert_eq!(*squeue(&ring).entries.get_offset(2), expected);
    check_rest_unchanged(&ring, 0, 2, 3);
}

#[test]
fn flag_values() {
    assert_eq!(IoRingOpFlags::NoFlags.value(), 0);
    assert_eq!(IoRingOpFlags::RegisteredFile.value(), 1);
    assert_eq!(IoRingOpFlags::RegisteredBuffer.value(), 2);
    assert_eq!(SqueueEntryFlags::NoFlags.value(), 0);
    assert_eq!(SqueueEntryFlags::Drain.value(), 1);
    assert_eq!(RegBufferReqFlags::NoFlags.value(), 0);
    assert_eq!(IoRingCreateReqFlags::NoFlags.value(), 0);
    assert_eq!(IoRingCreateAdFlags::NoFlags.value(), 0);
}
