use win_async::{Afd, AfdPollEvents, Event, IoError, IoStatusBlock};

const STATUS_SUCCESS: i32 = 0;
const STATUS_PENDING: i32 = 259;
const STATUS_NOT_FOUND: i32 = -1073741275;
const STATUS_INVALID_HANDLE: i32 = -1073741816;

fn all_events() -> Vec<AfdPollEvents> {
    vec![
        AfdPollEvents::Receive,
        AfdPollEvents::ReceiveExpedited,
        AfdPollEvents::Send,
        AfdPollEvents::Disconnect,
        AfdPollEvents::Abort,
        AfdPollEvents::LocalClose,
        AfdPollEvents::Accept,
        AfdPollEvents::ConnectFail,
    ]
}

#[test]
fn poll_event_values() {
    let expected: Vec<u32> = vec![0x001, 0x002, 0x004, 0x008, 0x010, 0x020, 0x080, 0x100];
    let got: Vec<u32> = all_events().iter().map(|e| e.value()).collect();
    assert_eq!(got, expected);
}

#[test]
fn poll_events_are_distinct_single_bits() {
    let events: Vec<AfdPollEvents> = all_events();
    for a in events.iter() {
        let x: u32 = a.value();
        assert_eq!(x.count_ones(), 1);
        for b in events.iter() {
            if a != b {
                assert_eq!(x & b.value(), 0);
            }
        }
    }
}

#[test]
fn open_request_names_the_afd_device() {
    let r = Afd::open_request();
    let name: Vec<u16> = "\\Device\\Afd\\Io".encode_utf16().collect();
    assert_eq!(r.device_name, name);
    assert_eq!(r.name_length, 28);
    assert_eq!(r.desired_access, 0x0010_0000);
    assert_eq!(r.share_access, 3);
    assert_eq!(r.create_disposition, 1);
    assert_eq!(r.object_attributes_length as usize, 6 * std::mem::size_of::<usize>());
    assert_eq!(r.root_directory, 0);
    assert_eq!(r.attributes, 0);
    assert_eq!(r.security_descriptor, None);
    assert_eq!(r.security_quality_of_service, None);
    assert_eq!(r.allocation_size, None);
    assert_eq!(r.file_attributes, 0);
    assert_eq!(r.create_options, 0);
    assert_eq!(r.ea_buffer, None);
    assert_eq!(r.ea_length, 0);
}

#[test]
fn create_success_keeps_the_handle() {
    let afd = Afd::from_create_status(STATUS_SUCCESS, 42).unwrap();
    assert_eq!(afd.handle(), 42);
}

#[test]
fn create_failure_reports_the_status() {
    let r = Afd::from_create_status(STATUS_NOT_FOUND, 42);
    assert!(matches!(r, Err(IoError::NtStatus(s)) if s == STATUS_NOT_FOUND));
    let r = Afd::from_create_status(STATUS_PENDING, 7);
    assert!(matches!(r, Err(IoError::NtStatus(s)) if s == STATUS_PENDING));
}

#[test]
fn poll_start_marks_the_block_pending() {
    let afd = Afd::from_create_status(STATUS_SUCCESS, 9).unwrap();
    let mut iosb = IoStatusBlock { status: STATUS_SUCCESS, information: 17 };
    let call = afd.poll_start(&mut iosb);
    assert_eq!(iosb.status, STATUS_PENDING);
    assert_eq!(iosb.information, 17);
    assert_eq!(call.handle, 9);
    assert_eq!(call.control_code, 0x00012024);
    assert_eq!(call.event, 0);
    assert_eq!(call.apc_routine, None);
    assert!(call.apc_context_is_status_block);
    assert_eq!(call.input_length, 32);
    assert_eq!(call.output_length, 32);
}

#[test]
fn poll_finish_maps_each_status() {
    assert_eq!(Afd::poll_finish(STATUS_SUCCESS), Ok(()));
    assert_eq!(Afd::poll_finish(STATUS_PENDING), Err(IoError::WouldBlock));
    assert_eq!(Afd::poll_finish(STATUS_INVALID_HANDLE), Err(IoError::NtStatus(STATUS_INVALID_HANDLE)));
    assert_eq!(Afd::poll_finish(STATUS_NOT_FOUND), Err(IoError::NtStatus(STATUS_NOT_FOUND)));
}

#[test]
fn cancel_start_only_on_pending() {
    let afd = Afd::from_create_status(STATUS_SUCCESS, 5).unwrap();
    let done = IoStatusBlock { status: STATUS_SUCCESS, information: 0 };
    assert!(afd.cancel_start(&done).is_none());
    let failed = IoStatusBlock { status: STATUS_INVALID_HANDLE, information: 3 };
    assert!(afd.cancel_start(&failed).is_none());
    let pending = IoStatusBlock { status: STATUS_PENDING, information: 3 };
    let req = afd.cancel_start(&pending).unwrap();
    assert_eq!(req.handle, 5);
    assert_eq!(req.status_block.status, 0);
    assert_eq!(req.status_block.information, 0);
}

#[test]
fn cancel_finish_maps_each_status() {
    assert_eq!(Afd::cancel_finish(STATUS_SUCCESS), Ok(()));
    assert_eq!(Afd::cancel_finish(STATUS_NOT_FOUND), Ok(()));
    assert_eq!(Afd::cancel_finish(STATUS_PENDING), Err(IoError::NtStatus(STATUS_PENDING)));
    assert_eq!(Afd::cancel_finish(STATUS_INVALID_HANDLE), Err(IoError::NtStatus(STATUS_INVALID_HANDLE)));
}

#[test]
fn started_poll_needs_cancel() {
    let afd = Afd::from_create_status(STATUS_SUCCESS, 11).unwrap();
    let mut iosb = IoStatusBlock::zeroed();
    assert!(afd.cancel_start(&iosb).is_none());
    afd.poll_start(&mut iosb);
    assert!(afd.cancel_start(&iosb).is_some());
}

#[test]
fn poll_success_is_cancel_success() {
    let statuses: Vec<i32> = vec![STATUS_SUCCESS, STATUS_PENDING, STATUS_NOT_FOUND, STATUS_INVALID_HANDLE, 1];
    for s in statuses {
        if Afd::poll_finish(s).is_ok() {
            assert!(Afd::cancel_finish(s).is_ok());
        }
        if Afd::poll_finish(s) == Err(IoError::WouldBlock) {
            assert_eq!(Afd::cancel_finish(s), Err(IoError::NtStatus(s)));
        }
    }
}

#[test]
fn zeroed_status_block() {
    let b = IoStatusBlock::zeroed();
    assert_eq!(b.status, 0);
    assert_eq!(b.information, 0);
}

#[test]
fn event_holds_its_fields() {
    let e = Event { key: 3, readable: true, writeable: false };
    assert_eq!(e.key, 3);
    assert!(e.readable);
    assert!(!e.writeable);
}
