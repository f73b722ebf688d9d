mod afd;

pub use afd::{
    AFD_POLL_INFO_LENGTH, Afd, AfdOpenRequest, AfdPollEvent, AfdPollEvents, AfdPollHandleInfo, AfdPollInfo,
    CancelRequest, DeviceControl, IoStatusBlock, is_single_bit, spec_afd_device_name,
    spec_cancel_needed, spec_cancel_outcome, spec_file_open, spec_ioctl_afd_poll,
    spec_poll_outcome, spec_share_read_write, spec_status_not_found, spec_status_pending,
    spec_status_success, spec_synchronize, lemma_poll_events_are_distinct_bits,
    lemma_poll_success_is_cancel_success, lemma_started_poll_needs_cancel,
    lemma_poll_event_values, lemma_status_values, lemma_poll_outcome_cases,
    lemma_cancel_outcome_cases, lemma_cancel_needed_is_pending,
};
