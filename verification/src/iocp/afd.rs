use vstd::prelude::*;

use windows_sys::Win32::Foundation::{HANDLE, NTSTATUS};
use windows_sys::Win32::System::WindowsProgramming::OBJECT_ATTRIBUTES;

use crate::IoError;

verus! {

// ---------------------------------------------------------------------------
// Values that `windows-sys` defines and the AFD requests use.
// ---------------------------------------------------------------------------

/// `STATUS_SUCCESS`: the request completed.
pub open spec fn spec_status_success() -> NTSTATUS {
    0
}

/// `STATUS_PENDING`: the request was accepted and is still in progress.
pub open spec fn spec_status_pending() -> NTSTATUS {
    259
}

/// `STATUS_NOT_FOUND`: there was no such request (for a cancel: nothing left to cancel).
pub open spec fn spec_status_not_found() -> NTSTATUS {
    -1073741275i32
}

/// `SYNCHRONIZE`, the access right the AFD device is opened with.
pub open spec fn spec_synchronize() -> u32 {
    1048576
}

/// `FILE_SHARE_READ | FILE_SHARE_WRITE`, the sharing the AFD device is opened with.
pub open spec fn spec_share_read_write() -> u32 {
    3
}

/// `FILE_OPEN`: open the device, do not create it.
pub open spec fn spec_file_open() -> u32 {
    1
}

/// The control code of an AFD poll request.
pub open spec fn spec_ioctl_afd_poll() -> u32 {
    0x00012024
}

/// Reads `windows_sys::Win32::Foundation::STATUS_SUCCESS`, which the crate defines as `0i32`.
#[verifier::external_body]
fn status_success() -> (r: NTSTATUS)
    ensures
        r == spec_status_success(),
{
    windows_sys::Win32::Foundation::STATUS_SUCCESS
}

/// Reads `windows_sys::Win32::Foundation::STATUS_PENDING`, which the crate defines as `259i32`.
#[verifier::external_body]
fn status_pending() -> (r: NTSTATUS)
    ensures
        r == spec_status_pending(),
{
    windows_sys::Win32::Foundation::STATUS_PENDING
}

/// Reads `windows_sys::Win32::Foundation::STATUS_NOT_FOUND`, which the crate defines as
/// `-1073741275i32`.
#[verifier::external_body]
fn status_not_found() -> (r: NTSTATUS)
    ensures
        r == spec_status_not_found(),
{
    windows_sys::Win32::Foundation::STATUS_NOT_FOUND
}

/// Reads `windows_sys::Win32::Storage::FileSystem::SYNCHRONIZE`, which the crate defines as
/// `1048576u32`.
#[verifier::external_body]
fn synchronize() -> (r: u32)
    ensures
        r == spec_synchronize(),
{
    windows_sys::Win32::Storage::FileSystem::SYNCHRONIZE
}

/// Reads `windows_sys::Win32::Storage::FileSystem::FILE_SHARE_READ`, which the crate defines as
/// `1u32`.
#[verifier::external_body]
fn file_share_read() -> (r: u32)
    ensures
        r == 1,
{
    windows_sys::Win32::Storage::FileSystem::FILE_SHARE_READ
}

/// Reads `windows_sys::Win32::Storage::FileSystem::FILE_SHARE_WRITE`, which the crate defines as
/// `2u32`.
#[verifier::external_body]
fn file_share_write() -> (r: u32)
    ensures
        r == 2,
{
    windows_sys::Win32::Storage::FileSystem::FILE_SHARE_WRITE
}

/// Reads `windows_sys::Win32::Storage::FileSystem::FILE_OPEN`, which the crate defines as `1u32`.
#[verifier::external_body]
fn file_open() -> (r: u32)
    ensures
        r == spec_file_open(),
{
    windows_sys::Win32::Storage::FileSystem::FILE_OPEN
}

/// The object-attributes block of `windows-sys`, whose size goes into the open request.
#[verifier::external_type_specification]
#[verifier::external_body]
pub struct ExObjectAttributes(OBJECT_ATTRIBUTES);

// ---------------------------------------------------------------------------
// Poll events
// ---------------------------------------------------------------------------

/// A set of [`AfdPollEvents`], one bit per event.
pub type AfdPollEvent = u32;

/// The events that an AFD poll request waits for and reports.
#[derive(Debug, Clone, Copy, PartialEq, Eq, Structural)]
pub enum AfdPollEvents {
    Receive,
    ReceiveExpedited,
    Send,
    Disconnect,
    Abort,
    LocalClose,
    Accept,
    ConnectFail,
}

/// `x` has exactly one bit set.
pub open spec fn is_single_bit(x: u32) -> bool {
    x != 0 && x & ((x - 1) as u32) == 0
}

impl AfdPollEvents {
    /// The bit of the event in an [`AfdPollEvent`] mask.
    pub open spec fn spec_value(self) -> AfdPollEvent {
        match self {
            AfdPollEvents::Receive => 0x001,
            AfdPollEvents::ReceiveExpedited => 0x002,
            AfdPollEvents::Send => 0x004,
            AfdPollEvents::Disconnect => 0x008,
            AfdPollEvents::Abort => 0x010,
            AfdPollEvents::LocalClose => 0x020,
            AfdPollEvents::Accept => 0x080,
            AfdPollEvents::ConnectFail => 0x100,
        }
    }

    /// The bit of the event in an [`AfdPollEvent`] mask.
    pub fn value(&self) -> (r: AfdPollEvent)
        ensures
            r == self.spec_value(),
            *self == AfdPollEvents::Receive ==> r == 0x001,
            *self == AfdPollEvents::ReceiveExpedited ==> r == 0x002,
            *self == AfdPollEvents::Send ==> r == 0x004,
            *self == AfdPollEvents::Disconnect ==> r == 0x008,
            *self == AfdPollEvents::Abort ==> r == 0x010,
            *self == AfdPollEvents::LocalClose ==> r == 0x020,
            *self == AfdPollEvents::Accept ==> r == 0x080,
            *self == AfdPollEvents::ConnectFail ==> r == 0x100,
    {
        match self {
            AfdPollEvents::Receive => 0x001,
            AfdPollEvents::ReceiveExpedited => 0x002,
            AfdPollEvents::Send => 0x004,
            AfdPollEvents::Disconnect => 0x008,
            AfdPollEvents::Abort => 0x010,
            AfdPollEvents::LocalClose => 0x020,
            AfdPollEvents::Accept => 0x080,
            AfdPollEvents::ConnectFail => 0x100,
        }
    }
}

proof fn lemma_listed_values_are_single_bits(x: u32)
    requires
        x == 0x001 || x == 0x002 || x == 0x004 || x == 0x008 || x == 0x010 || x == 0x020
            || x == 0x080 || x == 0x100,
    ensures
        is_single_bit(x),
{
    assert(x != 0 && x & ((x - 1) as u32) == 0) by (bit_vector)
        requires
            x == 0x001 || x == 0x002 || x == 0x004 || x == 0x008 || x == 0x010 || x == 0x020
                || x == 0x080 || x == 0x100,
    ;
}

proof fn lemma_distinct_single_bits_are_disjoint(x: u32, y: u32)
    requires
        is_single_bit(x),
        is_single_bit(y),
        x != y,
    ensures
        x & y == 0,
{
    assert(x & y == 0) by (bit_vector)
        requires
            x != 0 && x & ((x - 1) as u32) == 0,
            y != 0 && y & ((y - 1) as u32) == 0,
            x != y,
    ;
}

/// Each poll event is a single bit of the mask, and two different events never share a bit,
/// so a mask of events tells exactly which events it holds.
pub proof fn lemma_poll_events_are_distinct_bits(a: AfdPollEvents, b: AfdPollEvents)
    ensures
        is_single_bit(a.spec_value()),
        a.spec_value() != 0,
        a.spec_value() & ((a.spec_value() - 1) as u32) == 0,
        a != b ==> a.spec_value() & b.spec_value() == 0,
{
    lemma_listed_values_are_single_bits(a.spec_value());
    lemma_listed_values_are_single_bits(b.spec_value());
    if a != b {
        assert(a.spec_value() != b.spec_value());
        lemma_distinct_single_bits_are_disjoint(a.spec_value(), b.spec_value());
    }
}

// ---------------------------------------------------------------------------
// Request blocks
// ---------------------------------------------------------------------------

/// One socket of an AFD poll request: the events asked for, and on completion the events seen
/// and the socket's status.
pub struct AfdPollHandleInfo {
    pub handle: HANDLE,
    pub events: u32,
    pub status: NTSTATUS,
}

/// The buffer of an AFD poll request.
pub struct AfdPollInfo {
    pub timeout: i64,
    pub handle_count: u32,
    pub exclusive: u32,
    pub handles: [AfdPollHandleInfo; 1],
}

/// The status block of an asynchronous request: the kernel writes the request's final status
/// and the number of bytes it moved there.
pub struct IoStatusBlock {
    pub status: NTSTATUS,
    pub information: usize,
}

impl IoStatusBlock {
    /// A status block whose status and count are both zero.
    pub fn zeroed() -> (r: IoStatusBlock)
        ensures
            r.status == 0,
            r.information == 0,
    {
        IoStatusBlock { status: 0, information: 0 }
    }
}

// ---------------------------------------------------------------------------
// The AFD device
// ---------------------------------------------------------------------------

/// The name of the AFD device, `\Device\Afd\Io`, in UTF-16 without a terminator.
pub open spec fn spec_afd_device_name() -> Seq<u16> {
    seq![
        '\\' as u16, 'D' as u16, 'e' as u16, 'v' as u16, 'i' as u16, 'c' as u16, 'e' as u16,
        '\\' as u16, 'A' as u16, 'f' as u16, 'd' as u16, '\\' as u16, 'I' as u16, 'o' as u16,
    ]
}

/// The arguments of the `NtCreateFile` call that opens the AFD device.
pub struct AfdOpenRequest {
    /// The device's name, in UTF-16 without a terminator.
    pub device_name: Vec<u16>,
    /// The name's size in bytes, both its length and its maximum length.
    pub name_length: u16,
    /// The access asked for.
    pub desired_access: u32,
    /// How other openers may share the device.
    pub share_access: u32,
    /// What to do when the device exists or does not.
    pub create_disposition: u32,
    /// The size in bytes of the object-attributes block that names the device.
    pub object_attributes_length: u32,
    /// The directory the name is relative to; `0`: the name is absolute.
    pub root_directory: HANDLE,
    /// The object-attribute flags.
    pub attributes: u32,
    /// The address of a security descriptor for the handle, if one is given.
    pub security_descriptor: Option<usize>,
    /// The address of a security quality-of-service block, if one is given.
    pub security_quality_of_service: Option<usize>,
    /// The initial allocation size, if one is given.
    pub allocation_size: Option<i64>,
    /// The file attributes.
    pub file_attributes: u32,
    /// The create options; without a synchronous-I/O option the handle allows overlapped I/O.
    pub create_options: u32,
    /// The address of an extended-attributes buffer, if one is given.
    pub ea_buffer: Option<usize>,
    /// The length of the extended-attributes buffer.
    pub ea_length: u32,
}

/// The size in bytes of an AFD poll buffer as the kernel lays it out (32 on 64-bit Windows).
pub const AFD_POLL_INFO_LENGTH: u32 = 32;

/// A device control request to issue on a handle.
pub struct DeviceControl {
    pub handle: HANDLE,
    /// The event to signal on completion; `0`: none.
    pub event: HANDLE,
    /// The address of a routine to call on completion, if one is given.
    pub apc_routine: Option<usize>,
    /// Whether the routine's context is the operation's status block.
    pub apc_context_is_status_block: bool,
    pub control_code: u32,
    /// The size in bytes of the input buffer.
    pub input_length: u32,
    /// The size in bytes of the output buffer.
    pub output_length: u32,
}

/// A cancel request for an operation that is still pending: the device's handle, and the status
/// block that receives the cancel's own outcome.
pub struct CancelRequest {
    pub handle: HANDLE,
    pub status_block: IoStatusBlock,
}

/// What a poll request comes to once the kernel answered `status`.
pub open spec fn spec_poll_outcome(status: NTSTATUS) -> Result<(), IoError> {
    if status == spec_status_success() {
        Ok(())
    } else if status == spec_status_pending() {
        Err(IoError::WouldBlock)
    } else {
        Err(IoError::NtStatus(status))
    }
}

/// What a cancel request comes to once the kernel answered `status`: a cancel that found nothing
/// left to cancel has done its work too.
pub open spec fn spec_cancel_outcome(status: NTSTATUS) -> Result<(), IoError> {
    if status == spec_status_success() || status == spec_status_not_found() {
        Ok(())
    } else {
        Err(IoError::NtStatus(status))
    }
}

/// A cancel has to be asked of the kernel exactly while the operation's status block still
/// reads pending.
pub open spec fn spec_cancel_needed(iosb: IoStatusBlock) -> bool {
    iosb.status == spec_status_pending()
}

/// An open handle on the AFD device, through which sockets are polled.
pub struct Afd {
    handle: HANDLE,
}

impl View for Afd {
    type V = HANDLE;

    closed spec fn view(&self) -> HANDLE {
        self.handle
    }
}

impl Afd {
    /// The arguments with which the AFD device is opened: its name, `SYNCHRONIZE` access,
    /// shared for reading and writing, and opened only if it exists.
    pub fn open_request() -> (r: AfdOpenRequest)
        ensures
            r.device_name@ == spec_afd_device_name(),
            r.device_name@ == seq![92u16, 68, 101, 118, 105, 99, 101, 92, 65, 102, 100, 92, 73, 111],
            r.name_length == 2 * spec_afd_device_name().len(),
            r.name_length == 28,
            r.desired_access == spec_synchronize(),
            r.share_access == spec_share_read_write(),
            r.create_disposition == spec_file_open(),
            r.desired_access == 0x0010_0000,
            r.share_access == 3,
            r.create_disposition == 1,
            r.object_attributes_length == vstd::layout::size_of::<OBJECT_ATTRIBUTES>() as u32,
            r.root_directory == 0,
            r.attributes == 0,
            r.security_descriptor is None,
            r.security_quality_of_service is None,
            r.allocation_size is None,
            r.file_attributes == 0,
            r.create_options == 0,
            r.ea_buffer is None,
            r.ea_length == 0,
    {
        let device_name: Vec<u16> = vec![
            '\\' as u16, 'D' as u16, 'e' as u16, 'v' as u16, 'i' as u16, 'c' as u16, 'e' as u16,
            '\\' as u16, 'A' as u16, 'f' as u16, 'd' as u16, '\\' as u16, 'I' as u16, 'o' as u16,
        ];
        let name_length: u16 = 2 * (device_name.len() as u16);
        let read: u32 = file_share_read();
        let write: u32 = file_share_write();
        assert(1u32 | 2u32 == 3u32) by (bit_vector);
        AfdOpenRequest {
            device_name,
            name_length,
            desired_access: synchronize(),
            share_access: read | write,
            create_disposition: file_open(),
            object_attributes_length: Self::object_attributes_length(),
            root_directory: 0,
            attributes: 0,
            security_descriptor: None,
            security_quality_of_service: None,
            allocation_size: None,
            file_attributes: 0,
            create_options: 0,
            ea_buffer: None,
            ea_length: 0,
        }
    }

    /// The size of the object-attributes block, as the request's length field holds it.
    fn object_attributes_length() -> (r: u32)
        ensures
            r == vstd::layout::size_of::<OBJECT_ATTRIBUTES>() as u32,
    {
        #[verifier::truncate]
        (std::mem::size_of::<OBJECT_ATTRIBUTES>() as u32)
    }

    /// The device handle that the kernel handed back, if the open request completed
    /// (`result` is `STATUS_SUCCESS`); otherwise the error that `result` stands for.
    pub fn from_create_status(result: NTSTATUS, handle: HANDLE) -> (r: Result<Afd, IoError>)
        ensures
            r is Ok <==> result == 0,
            result == spec_status_success() ==> (r matches Ok(afd) && afd@ == handle),
            result != spec_status_success() ==> r == Err::<Afd, IoError>(IoError::NtStatus(result)),
    {
        if result != status_success() {
            return Err(IoError::NtStatus(result));
        }
        Ok(Afd { handle })
    }

    /// The device's handle.
    pub fn handle(&self) -> (r: HANDLE)
        ensures
            r == self@,
    {
        self.handle
    }

    /// Starts a poll: marks the operation's status block pending, and gives the device control
    /// request to issue with the poll buffer as both input and output: `IOCTL_AFD_POLL` on this
    /// device, no event, no completion routine, the status block as the routine's context, and
    /// the poll buffer's size as both lengths.
    pub fn poll_start(&self, iosb: &mut IoStatusBlock) -> (r: DeviceControl)
        ensures
            final(iosb).status == spec_status_pending(),
            final(iosb).information == old(iosb).information,
            r.handle == self@,
            r.event == 0,
            r.apc_routine is None,
            r.apc_context_is_status_block,
            r.control_code == spec_ioctl_afd_poll(),
            r.control_code == 0x00012024,
            final(iosb).status == 259,
            r.input_length == AFD_POLL_INFO_LENGTH,
            r.output_length == AFD_POLL_INFO_LENGTH,
    {
        iosb.status = status_pending();
        DeviceControl {
            handle: self.handle,
            event: 0,
            apc_routine: None,
            apc_context_is_status_block: true,
            control_code: 0x00012024,
            input_length: AFD_POLL_INFO_LENGTH,
            output_length: AFD_POLL_INFO_LENGTH,
        }
    }

    /// Ends a poll whose device control request returned `status`: done on `STATUS_SUCCESS`,
    /// would block while `STATUS_PENDING`, and any other status is the error.
    pub fn poll_finish(status: NTSTATUS) -> (r: Result<(), IoError>)
        ensures
            r == spec_poll_outcome(status),
            r is Ok <==> status == 0,
            r == Err::<(), IoError>(IoError::WouldBlock) <==> status == 259,
            status != 0 && status != 259 ==> r == Err::<(), IoError>(IoError::NtStatus(status)),
    {
        if status == status_success() {
            Ok(())
        } else if status == status_pending() {
            Err(IoError::WouldBlock)
        } else {
            Err(IoError::NtStatus(status))
        }
    }

    /// Starts cancelling the operation whose status block is `iosb`: no request when it is no
    /// longer pending, else a cancel request on this device with a zeroed status block.
    pub fn cancel_start(&self, iosb: &IoStatusBlock) -> (r: Option<CancelRequest>)
        ensures
            r is Some <==> spec_cancel_needed(*iosb),
            r is Some <==> iosb.status == 259,
            r matches Some(c) ==> c.handle == self@ && c.status_block.status == 0
                && c.status_block.information == 0,
    {
        if iosb.status != status_pending() {
            return None;
        }
        Some(CancelRequest { handle: self.handle, status_block: IoStatusBlock::zeroed() })
    }

    /// Ends a cancel whose request returned `status`: done on `STATUS_SUCCESS` and on
    /// `STATUS_NOT_FOUND`, and any other status is the error.
    pub fn cancel_finish(status: NTSTATUS) -> (r: Result<(), IoError>)
        ensures
            r == spec_cancel_outcome(status),
            r is Ok <==> (status == 0 || status == -1073741275i32),
            !(r is Ok) ==> r == Err::<(), IoError>(IoError::NtStatus(status)),
    {
        if status == status_success() || status == status_not_found() {
            Ok(())
        } else {
            Err(IoError::NtStatus(status))
        }
    }
}

/// The bit of each poll event: receive 0x001, expedited receive 0x002, send 0x004, disconnect
/// 0x008, abort 0x010, local close 0x020, accept 0x080, failed connect 0x100.
pub proof fn lemma_poll_event_values(a: AfdPollEvents)
    ensures
        a == AfdPollEvents::Receive ==> a.spec_value() == 0x001,
        a == AfdPollEvents::ReceiveExpedited ==> a.spec_value() == 0x002,
        a == AfdPollEvents::Send ==> a.spec_value() == 0x004,
        a == AfdPollEvents::Disconnect ==> a.spec_value() == 0x008,
        a == AfdPollEvents::Abort ==> a.spec_value() == 0x010,
        a == AfdPollEvents::LocalClose ==> a.spec_value() == 0x020,
        a == AfdPollEvents::Accept ==> a.spec_value() == 0x080,
        a == AfdPollEvents::ConnectFail ==> a.spec_value() == 0x100,
{
}

/// The kernel's status values: success 0, pending 259, not found -1073741275 (0xC0000225).
pub proof fn lemma_status_values()
    ensures
        spec_status_success() == 0,
        spec_status_pending() == 259,
        spec_status_not_found() == -1073741275i32,
{
}

/// A poll's outcome by the kernel's answer: done exactly on 0, would block exactly on 259 (pending),
/// and every other answer is that status as the error.
pub proof fn lemma_poll_outcome_cases(status: NTSTATUS)
    ensures
        spec_poll_outcome(status) is Ok <==> status == 0,
        spec_poll_outcome(status) == Err::<(), IoError>(IoError::WouldBlock) <==> status == 259,
        status != 0 && status != 259 ==> spec_poll_outcome(status) == Err::<(), IoError>(
            IoError::NtStatus(status),
        ),
{
}

/// A cancel's outcome by the kernel's answer: done exactly on 0 and on -1073741275 (not found),
/// and every other answer is that status as the error.
pub proof fn lemma_cancel_outcome_cases(status: NTSTATUS)
    ensures
        spec_cancel_outcome(status) is Ok <==> (status == 0 || status == -1073741275i32),
        !(spec_cancel_outcome(status) is Ok) ==> spec_cancel_outcome(status) == Err::<(), IoError>(
            IoError::NtStatus(status),
        ),
{
}

/// A cancel is needed exactly while the status block reads 259 (pending), whatever its byte
/// count says.
pub proof fn lemma_cancel_needed_is_pending(iosb: IoStatusBlock)
    ensures
        spec_cancel_needed(iosb) <==> iosb.status == 259,
        forall|n: usize| spec_cancel_needed(iosb) == spec_cancel_needed(IoStatusBlock { status: iosb.status, information: n }),
{
}

/// A poll that was started and has not been answered yet can be cancelled: the status block that
/// `poll_start` leaves behind is one on which `cancel_start` asks for a cancel.
pub proof fn lemma_started_poll_needs_cancel(iosb: IoStatusBlock)
    requires
        iosb.status == spec_status_pending(),
    ensures
        spec_cancel_needed(iosb),
{
}

/// A status that ends a poll successfully also ends a cancel successfully, and a status that
/// leaves a poll pending is an error for a cancel.
pub proof fn lemma_poll_success_is_cancel_success(status: NTSTATUS)
    ensures
        spec_poll_outcome(status) is Ok ==> spec_cancel_outcome(status) is Ok,
        spec_poll_outcome(status) == Err::<(), IoError>(IoError::WouldBlock)
            ==> spec_cancel_outcome(status) == Err::<(), IoError>(IoError::NtStatus(status)),
{
}

} // verus!
