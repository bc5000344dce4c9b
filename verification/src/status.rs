//! Typed outcomes of calls into the native camera service.

use vstd::prelude::*;

verus! {

/// Why a start attempt or a frame was given up.
#[derive(Clone, Copy, Debug, PartialEq, Eq, Structural)]
pub enum CameraError {
    /// No camera faces the requested way, or the cameras could not be listed.
    NoMatchingCamera,
    /// The selected camera does not offer the target pixel format.
    UnsupportedConfiguration,
    /// The request to open the device was refused at submission.
    DeviceOpenFailed,
    /// A step of wiring the capture graph failed.
    PipelineBuildFailed,
    /// A frame could not be acquired or converted.
    FrameAcquireFailed,
    /// The user has not granted access to the camera.
    PermissionDenied,
}

/// The status code that every native call reports on success.
pub const STATUS_OK: i32 = 0;

/// A non-null handle that the native service handed out.
#[derive(Clone, Copy, Debug, PartialEq, Eq, Structural)]
pub struct Handle {
    pub raw: u64,
}

impl Handle {
    /// The handle for a raw pointer value; a null pointer is no handle.
    pub fn new(raw: u64) -> (h: Option<Handle>)
        ensures
            h == (if raw == 0 {
                None
            } else {
                Some(Handle { raw })
            }),
    {
        if raw == 0 {
            None
        } else {
            Some(Handle { raw })
        }
    }
}

/// What a native call gave back: its status code, the pointer it handed out
/// (zero where the call hands out none), and the integers it read (the values
/// of a metadata entry, or a count).
#[derive(Debug)]
pub struct NativeReply {
    pub status: i32,
    pub handle: u64,
    pub values: Vec<i32>,
}

impl NativeReply {
    /// Whether the call reported success.
    pub open spec fn succeeded(&self) -> bool {
        self.status == STATUS_OK
    }

    /// The handle that a successful call handed out.
    pub open spec fn granted(&self) -> Option<Handle> {
        if self.status == STATUS_OK && self.handle != 0 {
            Some(Handle { raw: self.handle })
        } else {
            None
        }
    }

    /// A reply that carries a status code only.
    pub fn of_status(status: i32) -> (r: NativeReply)
        ensures
            r.status == status,
            r.handle == 0,
            r.values@ == Seq::<i32>::empty(),
    {
        NativeReply { status, handle: 0, values: Vec::new() }
    }

    /// A reply that carries a status code and a pointer.
    pub fn of_handle(status: i32, handle: u64) -> (r: NativeReply)
        ensures
            r.status == status,
            r.handle == handle,
            r.values@ == Seq::<i32>::empty(),
    {
        NativeReply { status, handle, values: Vec::new() }
    }

    /// A reply that carries a status code and the integers that were read.
    pub fn of_values(status: i32, values: Vec<i32>) -> (r: NativeReply)
        ensures
            r.status == status,
            r.handle == 0,
            r.values@ == values@,
    {
        NativeReply { status, handle: 0, values }
    }

    /// `Ok` exactly for the status code of success; any other code is handed
    /// back as the error.
    pub fn check(&self) -> (r: Result<(), i32>)
        ensures
            r == (if self.succeeded() {
                Ok::<(), i32>(())
            } else {
                Err::<(), i32>(self.status)
            }),
    {
        if self.status == STATUS_OK {
            Ok(())
        } else {
            Err(self.status)
        }
    }

    /// The handle of a call that succeeded and handed out a non-null pointer.
    pub fn handle(&self) -> (h: Option<Handle>)
        ensures
            h == self.granted(),
    {
        if self.status == STATUS_OK {
            Handle::new(self.handle)
        } else {
            None
        }
    }
}

} // verus!
