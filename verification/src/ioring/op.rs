use vstd::prelude::*;

use windows_sys::Win32::Foundation::HANDLE;

verus! {

/// How the handles of an operation are to be read: as handles, or as indexes into the files
/// and buffers registered with the ring.
#[derive(Debug, Clone, Copy, PartialEq, Eq, Structural)]
pub enum IoRingOpFlags {
    NoFlags,
    RegisteredFile,
    RegisteredBuffer,
}

impl IoRingOpFlags {
    /// The flag's numeric value in a submission entry.
    pub open spec fn spec_value(self) -> i32 {
        match self {
            IoRingOpFlags::NoFlags => 0,
            IoRingOpFlags::RegisteredFile => 1,
            IoRingOpFlags::RegisteredBuffer => 2,
        }
    }

    /// The flag's numeric value in a submission entry.
    pub fn value(&self) -> (r: i32)
        ensures
            r == self.spec_value(),
            *self == IoRingOpFlags::NoFlags ==> r == 0,
            *self == IoRingOpFlags::RegisteredFile ==> r == 1,
            *self == IoRingOpFlags::RegisteredBuffer ==> r == 2,
    {
        match self {
            IoRingOpFlags::NoFlags => 0,
            IoRingOpFlags::RegisteredFile => 1,
            IoRingOpFlags::RegisteredBuffer => 2,
        }
    }
}

/// Options of a buffer registration; there are none.
#[derive(Debug, Clone, Copy, PartialEq, Eq, Structural)]
pub enum RegBufferReqFlags {
    NoFlags,
}

impl RegBufferReqFlags {
    /// The option's numeric value.
    pub fn value(&self) -> (r: i32)
        ensures
            r == 0,
    {
        0
    }
}

/// A read of `length` bytes of `file`, from byte `offset`, into `buffer`.
#[derive(Debug, Clone, Copy, PartialEq, Eq, Structural)]
pub struct OpRead {
    pub flags: IoRingOpFlags,
    pub padding: u32,
    pub file: HANDLE,
    pub buffer: HANDLE,
    pub offset: u64,
    pub length: u32,
    pub key: u32,
}

/// A buffer of `length` bytes at `address`.
#[derive(Debug, Clone, Copy, PartialEq, Eq, Structural)]
pub struct BufferInfo {
    pub address: HANDLE,
    pub length: u32,
}

/// The registration of `count` buffers with the ring, described by `info`.
#[derive(Debug, Clone, Copy, PartialEq, Eq, Structural)]
pub struct OpRegisterBuffers {
    pub flags: IoRingOpFlags,
    pub count: u32,
    pub info: BufferInfo,
}

/// The operation that a submission entry asks for.
#[derive(Debug, Clone, Copy, PartialEq, Eq)]
pub enum IoRingOp {
    RegisterBuffers(OpRegisterBuffers),
    Read(OpRead),
    Align([u8; 34]),
}

} // verus!
