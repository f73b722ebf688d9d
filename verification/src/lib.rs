use vstd::prelude::*;

mod iocp;
mod ioring;

pub use iocp::{
    AFD_POLL_INFO_LENGTH, Afd, AfdOpenRequest, AfdPollEvent, AfdPollEvents, AfdPollHandleInfo, AfdPollInfo,
    CancelRequest, DeviceControl, IoStatusBlock, is_single_bit, spec_afd_device_name,
    spec_cancel_needed, spec_cancel_outcome, spec_file_open, spec_ioctl_afd_poll,
    spec_poll_outcome, spec_share_read_write, spec_status_not_found, spec_status_pending,
    spec_status_success, spec_synchronize, lemma_poll_events_are_distinct_bits,
    lemma_poll_success_is_cancel_success, lemma_started_poll_needs_cancel,
    lemma_poll_event_values, lemma_status_values, lemma_poll_outcome_cases,
    lemma_cancel_outcome_cases, lemma_cancel_needed_is_pending,
};
pub use ioring::{
    Array, BufferInfo, CqueueHead, CqueueInner, IoRing, IoRingCreateAdFlags, IoRingCreateFlags,
    IoRingCreateReqFlags, IoRingCreateRequest, IoRingInner, IoRingOp, IoRingOpFlags, OpRead,
    OpRegisterBuffers, RegBufferReqFlags, SqueueEntry, SqueueEntryFlags, SqueueHead, SqueueInner,
    SQUEUE_ENTRY_STRIDE, lemma_array_holds_first, lemma_offset_slot_steps_by_stride, lemma_offset_zero_is_first, offset_slot, spec_entry_data, spec_ioring_version_3, spec_op_read, spec_op_register_buffers,
    spec_push_fits, spec_pushed, spec_read_entry, spec_register_buffers_entry,
    spec_submit_outcome, spec_tail_slot, lemma_pushed_entry_is_read_back, lemma_read_after_write,
    lemma_tail_index_within_mask, lemma_tail_index_wraps,
    lemma_tail_slot_is_masked_tail, lemma_push_writes_the_masked_tail, lemma_read_entry_fields,
    lemma_register_buffers_entry_fields, lemma_submit_outcome_cases,
};

verus! {

/// A readiness report for the socket registered under `key`.
pub struct Event {
    pub key: u32,
    pub readable: bool,
    pub writeable: bool,
}

/// The ways a request of this library can fail.
#[derive(Debug, Clone, Copy, PartialEq, Eq, Structural)]
pub enum IoError {
    /// The request was accepted but has not completed yet.
    WouldBlock,
    /// The kernel answered with this `NTSTATUS`; it becomes an OS error code once
    /// translated by `RtlNtStatusToDosError`.
    NtStatus(i32),
    /// The request failed with this OS error code.
    Os(i32),
    /// The request failed and the thread's last OS error says why.
    LastOs,
}

} // verus!
