//! One owner for each kind of native handle.

use vstd::prelude::*;
use crate::metadata::{
    FacingPolicy, StreamConfiguration, FORMAT_JPEG, is_first_match, select_camera,
    select_stream_configuration, selected_configuration,
};
use crate::resources::calls::{ReleaseCall, Resource, ResourceKind};
use crate::status::{CameraError, Handle, NativeReply};

verus! {

/// Binds a capture request to the surface that frames are rendered into.
#[derive(Debug)]
pub struct OutputTarget {
    pub target: Handle,
}

impl OutputTarget {
    /// An owner of the output target behind the handle.
    pub fn new(target: Handle) -> (t: Self)
        ensures
            t.target == target,
    {
        OutputTarget { target }
    }

    /// The handles that are held, in the order in which they are given back.
    pub open spec fn resources(&self) -> Seq<Resource> {
        seq![Resource { kind: ResourceKind::Target, handle: self.target }]
    }

    /// The calls that give back what is held.
    pub open spec fn releases(&self) -> Seq<ReleaseCall> {
        seq![ReleaseCall::FreeTarget { target: self.target }]
    }

    /// Gives the handle back: appends the calls to make, in order.
    pub fn release_into(self, calls: &mut Vec<ReleaseCall>)
        ensures
            final(calls)@ == old(calls)@ + self.releases(),
    {
        calls.push(ReleaseCall::FreeTarget { target: self.target });
    }
}

/// Registers a surface as a sink of a capture session.
#[derive(Debug)]
pub struct SessionOutput {
    pub output: Handle,
}

impl SessionOutput {
    /// An owner of the session output behind the handle.
    pub fn new(output: Handle) -> (o: Self)
        ensures
            o.output == output,
    {
        SessionOutput { output }
    }

    /// The handles that are held, in the order in which they are given back.
    pub open spec fn resources(&self) -> Seq<Resource> {
        seq![Resource { kind: ResourceKind::Output, handle: self.output }]
    }

    /// The calls that give back what is held.
    pub open spec fn releases(&self) -> Seq<ReleaseCall> {
        seq![ReleaseCall::FreeOutput { output: self.output }]
    }

    /// Gives the handle back: appends the calls to make, in order.
    pub fn release_into(self, calls: &mut Vec<ReleaseCall>)
        ensures
            final(calls)@ == old(calls)@ + self.releases(),
    {
        calls.push(ReleaseCall::FreeOutput { output: self.output });
    }
}

/// Holds the outputs of a capture session: none, or the one that was added.
#[derive(Debug)]
pub struct OutputContainer {
    pub container: Handle,
    pub output: Option<SessionOutput>,
}

impl OutputContainer {
    /// An owner of the output container behind the handle, which holds no output.
    pub fn new(container: Handle) -> (c: Self)
        ensures
            c.container == container,
            c.output is None,
    {
        OutputContainer { container, output: None }
    }

    /// The handles that are held, in the order in which they are given back.
    pub open spec fn resources(&self) -> Seq<Resource> {
        (match self.output {
            Some(o) => o.resources(),
            None => Seq::<Resource>::empty(),
        }) + seq![Resource { kind: ResourceKind::Container, handle: self.container }]
    }

    /// The output is taken out of the container, then freed, then the
    /// container is freed.
    pub open spec fn releases(&self) -> Seq<ReleaseCall> {
        (match self.output {
            Some(o) => seq![
                ReleaseCall::RemoveOutput { container: self.container, output: o.output },
            ] + o.releases(),
            None => Seq::<ReleaseCall>::empty(),
        }) + seq![ReleaseCall::FreeContainer { container: self.container }]
    }

    /// Takes the reply to the call that adds `output` to this container. On
    /// success the container owns the output. On failure the container is as
    /// it was and the output comes back: it was not added, and is freed
    /// without being removed. A container holds one output at most: the call
    /// may succeed only for a container that holds none.
    pub fn add_output(&mut self, output: SessionOutput, reply: &NativeReply) -> (r: Result<
        (),
        SessionOutput,
    >)
        requires
            reply.succeeded() ==> old(self).output is None,
        ensures
            final(self).container == old(self).container,
            reply.succeeded() ==> r is Ok && final(self).output == Some(output),
            !reply.succeeded() ==> r == Err::<(), SessionOutput>(output) && *final(self) == *old(
                self,
            ),
    {
        if reply.status == crate::status::STATUS_OK {
            self.output = Some(output);
            Ok(())
        } else {
            Err(output)
        }
    }

    /// Gives the handles back: appends the calls to make, in order.
    pub fn release_into(self, calls: &mut Vec<ReleaseCall>)
        ensures
            final(calls)@ == old(calls)@ + self.releases(),
    {
        let container = self.container;
        match self.output {
            Some(o) => {
                calls.push(ReleaseCall::RemoveOutput { container, output: o.output });
                o.release_into(calls);
            },
            None => {},
        }
        calls.push(ReleaseCall::FreeContainer { container });
        assert(calls@ =~= old(calls)@ + self.releases());
    }
}

/// One configured capture description; owns the target that was added to it.
#[derive(Debug)]
pub struct CaptureRequest {
    pub request: Handle,
    pub target: Option<OutputTarget>,
}

impl CaptureRequest {
    /// An owner of the capture request behind the handle, which has no target.
    pub fn new(request: Handle) -> (r: Self)
        ensures
            r.request == request,
            r.target is None,
    {
        CaptureRequest { request, target: None }
    }

    /// The handles that are held, in the order in which they are given back.
    pub open spec fn resources(&self) -> Seq<Resource> {
        (match self.target {
            Some(t) => t.resources(),
            None => Seq::<Resource>::empty(),
        }) + seq![Resource { kind: ResourceKind::Request, handle: self.request }]
    }

    /// The target is detached from the request, then freed, then the request
    /// is freed.
    pub open spec fn releases(&self) -> Seq<ReleaseCall> {
        (match self.target {
            Some(t) => seq![
                ReleaseCall::RemoveTarget { request: self.request, target: t.target },
            ] + t.releases(),
            None => Seq::<ReleaseCall>::empty(),
        }) + seq![ReleaseCall::FreeRequest { request: self.request }]
    }

    /// Takes the reply to the call that adds `target` to this request. On
    /// success the request owns the target. On failure the request is as it
    /// was and the target comes back: it was not added, and is freed without
    /// being detached. A request has one target at most: the call may
    /// succeed only for a request that has none.
    pub fn add_target(&mut self, target: OutputTarget, reply: &NativeReply) -> (r: Result<
        (),
        OutputTarget,
    >)
        requires
            reply.succeeded() ==> old(self).target is None,
        ensures
            final(self).request == old(self).request,
            reply.succeeded() ==> r is Ok && final(self).target == Some(target),
            !reply.succeeded() ==> r == Err::<(), OutputTarget>(target) && *final(self) == *old(
                self,
            ),
    {
        if reply.status == crate::status::STATUS_OK {
            self.target = Some(target);
            Ok(())
        } else {
            Err(target)
        }
    }

    /// Gives the handles back: appends the calls to make, in order.
    pub fn release_into(self, calls: &mut Vec<ReleaseCall>)
        ensures
            final(calls)@ == old(calls)@ + self.releases(),
    {
        let request = self.request;
        match self.target {
            Some(t) => {
                calls.push(ReleaseCall::RemoveTarget { request, target: t.target });
                t.release_into(calls);
            },
            None => {},
        }
        calls.push(ReleaseCall::FreeRequest { request });
        assert(calls@ =~= old(calls)@ + self.releases());
    }
}

/// An active streaming session; owns the request that it repeats.
#[derive(Debug)]
pub struct CaptureSession {
    pub session: Handle,
    pub request: Option<CaptureRequest>,
}

impl CaptureSession {
    /// An owner of the capture session behind the handle, which repeats no request.
    pub fn new(session: Handle) -> (s: Self)
        ensures
            s.session == session,
            s.request is None,
    {
        CaptureSession { session, request: None }
    }

    /// The handles that are held, in the order in which they are given back.
    pub open spec fn resources(&self) -> Seq<Resource> {
        (match self.request {
            Some(r) => r.resources(),
            None => Seq::<Resource>::empty(),
        }) + seq![Resource { kind: ResourceKind::Session, handle: self.session }]
    }

    /// The request goes first, then the session is closed.
    pub open spec fn releases(&self) -> Seq<ReleaseCall> {
        (match self.request {
            Some(r) => r.releases(),
            None => Seq::<ReleaseCall>::empty(),
        }) + seq![ReleaseCall::CloseSession { session: self.session }]
    }

    /// Takes the reply to the call that sets `request` as the session's
    /// repeating request. On success the session owns the request and frames
    /// are being captured. On failure the session is as it was, whatever it
    /// holds, and the request comes back, to be given back by the caller. A
    /// session repeats one request at most: the call may succeed only for a
    /// session that repeats none.
    pub fn start(&mut self, request: CaptureRequest, reply: &NativeReply) -> (r: Result<
        (),
        CaptureRequest,
    >)
        requires
            reply.succeeded() ==> old(self).request is None,
        ensures
            final(self).session == old(self).session,
            reply.succeeded() ==> r is Ok && final(self).request == Some(request),
            !reply.succeeded() ==> r == Err::<(), CaptureRequest>(request) && *final(self)
                == *old(self),
    {
        if reply.status == crate::status::STATUS_OK {
            self.request = Some(request);
            Ok(())
        } else {
            Err(request)
        }
    }

    /// Gives the handles back: appends the calls to make, in order.
    pub fn release_into(self, calls: &mut Vec<ReleaseCall>)
        ensures
            final(calls)@ == old(calls)@ + self.releases(),
    {
        let session = self.session;
        match self.request {
            Some(r) => {
                r.release_into(calls);
            },
            None => {},
        }
        calls.push(ReleaseCall::CloseSession { session });
        assert(calls@ =~= old(calls)@ + self.releases());
    }
}

/// An opened camera; owns the output container of its session.
#[derive(Debug)]
pub struct CameraDevice {
    pub device: Handle,
    pub container: Option<OutputContainer>,
}

impl CameraDevice {
    /// An owner of the camera device behind the handle, which has no session.
    pub fn new(device: Handle) -> (d: Self)
        ensures
            d.device == device,
            d.container is None,
    {
        CameraDevice { device, container: None }
    }

    /// The handles that are held, in the order in which they are given back.
    pub open spec fn resources(&self) -> Seq<Resource> {
        (match self.container {
            Some(c) => c.resources(),
            None => Seq::<Resource>::empty(),
        }) + seq![Resource { kind: ResourceKind::Device, handle: self.device }]
    }

    /// The container goes first, then the device is closed.
    pub open spec fn releases(&self) -> Seq<ReleaseCall> {
        (match self.container {
            Some(c) => c.releases(),
            None => Seq::<ReleaseCall>::empty(),
        }) + seq![ReleaseCall::CloseDevice { device: self.device }]
    }

    /// Takes the reply to the call that creates a capture request from the
    /// preview template.
    pub fn create_request(&self, reply: &NativeReply) -> (r: Result<CaptureRequest, CameraError>)
        ensures
            match reply.granted() {
                Some(h) => r is Ok && r->Ok_0.request == h && r->Ok_0.target is None,
                None => r == Err::<CaptureRequest, CameraError>(CameraError::PipelineBuildFailed),
            },
    {
        match reply.handle() {
            Some(h) => Ok(CaptureRequest::new(h)),
            None => Err(CameraError::PipelineBuildFailed),
        }
    }

    /// Takes the reply to the call that creates a capture session from this
    /// device and `container`. On success the device owns the container and
    /// the session comes out. On failure the device is as it was, whatever
    /// it holds, and the container comes back, to be given back by the
    /// caller. A device owns one container at most: a session may be granted
    /// only to a device that owns none.
    pub fn create_session(&mut self, container: OutputContainer, reply: &NativeReply) -> (r: Result<
        CaptureSession,
        OutputContainer,
    >)
        requires
            reply.granted() is Some ==> old(self).container is None,
        ensures
            final(self).device == old(self).device,
            match reply.granted() {
                Some(h) => r is Ok && r->Ok_0.session == h && r->Ok_0.request is None
                    && final(self).container == Some(container),
                None => r == Err::<CaptureSession, OutputContainer>(container) && *final(self)
                    == *old(self),
            },
    {
        match reply.handle() {
            Some(h) => {
                self.container = Some(container);
                Ok(CaptureSession::new(h))
            },
            None => Err(container),
        }
    }

    /// Gives the handles back: appends the calls to make, in order.
    pub fn release_into(self, calls: &mut Vec<ReleaseCall>)
        ensures
            final(calls)@ == old(calls)@ + self.releases(),
    {
        let device = self.device;
        match self.container {
            Some(c) => {
                c.release_into(calls);
            },
            None => {},
        }
        calls.push(ReleaseCall::CloseDevice { device });
        assert(calls@ =~= old(calls)@ + self.releases());
    }
}

/// The surface that the hardware writes frames into. It belongs to the image
/// reader it was got from and is not freed by itself.
#[derive(Debug)]
pub struct NativeWindow {
    pub window: Handle,
}

impl NativeWindow {
    /// The surface behind the handle.
    pub fn new(window: Handle) -> (w: Self)
        ensures
            w.window == window,
    {
        NativeWindow { window }
    }

    /// Takes the reply to the call that creates an empty output container.
    pub fn create_container(&self, reply: &NativeReply) -> (r: Result<OutputContainer, CameraError>)
        ensures
            match reply.granted() {
                Some(h) => r is Ok && r->Ok_0.container == h && r->Ok_0.output is None,
                None => r == Err::<OutputContainer, CameraError>(CameraError::PipelineBuildFailed),
            },
    {
        match reply.handle() {
            Some(h) => Ok(OutputContainer::new(h)),
            None => Err(CameraError::PipelineBuildFailed),
        }
    }

    /// Takes the reply to the call that creates a session output for this
    /// surface.
    pub fn create_output(&self, reply: &NativeReply) -> (r: Result<SessionOutput, CameraError>)
        ensures
            match reply.granted() {
                Some(h) => r is Ok && r->Ok_0.output == h,
                None => r == Err::<SessionOutput, CameraError>(CameraError::PipelineBuildFailed),
            },
    {
        match reply.handle() {
            Some(h) => Ok(SessionOutput::new(h)),
            None => Err(CameraError::PipelineBuildFailed),
        }
    }

    /// Takes the reply to the call that creates an output target for this
    /// surface.
    pub fn create_target(&self, reply: &NativeReply) -> (r: Result<OutputTarget, CameraError>)
        ensures
            match reply.granted() {
                Some(h) => r is Ok && r->Ok_0.target == h,
                None => r == Err::<OutputTarget, CameraError>(CameraError::PipelineBuildFailed),
            },
    {
        match reply.handle() {
            Some(h) => Ok(OutputTarget::new(h)),
            None => Err(CameraError::PipelineBuildFailed),
        }
    }
}

/// The endpoint that frames are delivered to. It owns its surface and the
/// registration of the frame listener.
#[derive(Debug)]
pub struct ImageReader {
    pub reader: Handle,
    pub listening: bool,
}

impl ImageReader {
    /// An owner of the image reader behind the handle, which has no listener.
    pub fn new(reader: Handle) -> (r: Self)
        ensures
            r.reader == reader,
            !r.listening,
    {
        ImageReader { reader, listening: false }
    }

    /// The handles that are held, in the order in which they are given back.
    pub open spec fn resources(&self) -> Seq<Resource> {
        seq![Resource { kind: ResourceKind::Reader, handle: self.reader }]
    }

    /// The calls that give back what is held.
    pub open spec fn releases(&self) -> Seq<ReleaseCall> {
        seq![ReleaseCall::DeleteReader { reader: self.reader }]
    }

    /// Takes the reply to the call that asks the reader for its surface.
    pub fn get_window(&self, reply: &NativeReply) -> (r: Result<NativeWindow, CameraError>)
        ensures
            match reply.granted() {
                Some(h) => r is Ok && r->Ok_0.window == h,
                None => r == Err::<NativeWindow, CameraError>(CameraError::PipelineBuildFailed),
            },
    {
        match reply.handle() {
            Some(h) => Ok(NativeWindow::new(h)),
            None => Err(CameraError::PipelineBuildFailed),
        }
    }

    /// Takes the reply to the call that registers the frame listener.
    pub fn add_listener(&mut self, reply: &NativeReply) -> (r: Result<(), CameraError>)
        ensures
            final(self).reader == old(self).reader,
            reply.succeeded() ==> r is Ok && final(self).listening,
            !reply.succeeded() ==> r == Err::<(), CameraError>(CameraError::PipelineBuildFailed)
                && final(self).listening == old(self).listening,
    {
        if reply.status == crate::status::STATUS_OK {
            self.listening = true;
            Ok(())
        } else {
            Err(CameraError::PipelineBuildFailed)
        }
    }

    /// Gives the handle back: appends the calls to make, in order.
    pub fn release_into(self, calls: &mut Vec<ReleaseCall>)
        ensures
            final(calls)@ == old(calls)@ + self.releases(),
    {
        calls.push(ReleaseCall::DeleteReader { reader: self.reader });
    }
}

/// A snapshot of the identifiers of the cameras that are available.
#[derive(Debug)]
pub struct CameraIdList {
    pub list: Handle,
    pub count: usize,
}

impl CameraIdList {
    /// An owner of the list behind the handle, which names `count` cameras.
    pub fn new(list: Handle, count: usize) -> (l: Self)
        ensures
            l.list == list,
            l.count == count,
    {
        CameraIdList { list, count }
    }

    /// The handles that are held, in the order in which they are given back.
    pub open spec fn resources(&self) -> Seq<Resource> {
        seq![Resource { kind: ResourceKind::IdList, handle: self.list }]
    }

    /// The calls that give back what is held.
    pub open spec fn releases(&self) -> Seq<ReleaseCall> {
        seq![ReleaseCall::DeleteIdList { list: self.list }]
    }

    /// Gives the handle back: appends the calls to make, in order.
    pub fn release_into(self, calls: &mut Vec<ReleaseCall>)
        ensures
            final(calls)@ == old(calls)@ + self.releases(),
    {
        calls.push(ReleaseCall::DeleteIdList { list: self.list });
    }
}

/// The static characteristics of one camera.
#[derive(Debug)]
pub struct CameraMetadata {
    pub metadata: Handle,
}

impl CameraMetadata {
    /// An owner of the characteristics behind the handle.
    pub fn new(metadata: Handle) -> (m: Self)
        ensures
            m.metadata == metadata,
    {
        CameraMetadata { metadata }
    }

    /// The handles that are held, in the order in which they are given back.
    pub open spec fn resources(&self) -> Seq<Resource> {
        seq![Resource { kind: ResourceKind::Metadata, handle: self.metadata }]
    }

    /// The calls that give back what is held.
    pub open spec fn releases(&self) -> Seq<ReleaseCall> {
        seq![ReleaseCall::FreeMetadata { metadata: self.metadata }]
    }

    /// Gives the handle back: appends the calls to make, in order.
    pub fn release_into(self, calls: &mut Vec<ReleaseCall>)
        ensures
            final(calls)@ == old(calls)@ + self.releases(),
    {
        calls.push(ReleaseCall::FreeMetadata { metadata: self.metadata });
    }
}

/// One delivered frame, held from the entry of the frame callback to its exit.
#[derive(Debug)]
pub struct Image {
    pub image: Handle,
}

impl Image {
    /// An owner of the frame behind the handle.
    pub fn new(image: Handle) -> (i: Self)
        ensures
            i.image == image,
    {
        Image { image }
    }

    /// The calls that give back what is held.
    pub open spec fn releases(&self) -> Seq<ReleaseCall> {
        seq![ReleaseCall::DeleteImage { image: self.image }]
    }

    /// Gives the frame back: the call to make.
    pub fn release(self) -> (call: ReleaseCall)
        ensures
            call == (ReleaseCall::DeleteImage { image: self.image }),
    {
        ReleaseCall::DeleteImage { image: self.image }
    }
}

/// The connection to the camera service. It is created first and deleted last.
#[derive(Debug)]
pub struct CameraManager {
    pub manager: Handle,
}

impl CameraManager {
    /// An owner of the connection behind the handle.
    pub fn new(manager: Handle) -> (m: Self)
        ensures
            m.manager == manager,
    {
        CameraManager { manager }
    }

    /// The handles that are held, in the order in which they are given back.
    pub open spec fn resources(&self) -> Seq<Resource> {
        seq![Resource { kind: ResourceKind::Manager, handle: self.manager }]
    }

    /// The calls that give back what is held.
    pub open spec fn releases(&self) -> Seq<ReleaseCall> {
        seq![ReleaseCall::DeleteManager { manager: self.manager }]
    }

    /// Takes the reply to the call that lists the cameras: the handle of the
    /// list, and the number of identifiers in it as the first value.
    pub fn camera_id_list(&self, reply: &NativeReply) -> (r: Result<CameraIdList, CameraError>)
        ensures
            match reply.granted() {
                Some(h) => r is Ok && r->Ok_0.list == h && r->Ok_0.count as int == (
                if reply.values@.len() > 0 && reply.values@[0] > 0 {
                    reply.values@[0] as int
                } else {
                    0
                }),
                None => r == Err::<CameraIdList, CameraError>(CameraError::NoMatchingCamera),
            },
    {
        match reply.handle() {
            Some(h) => {
                let count: usize = if reply.values.len() > 0 && reply.values[0] > 0 {
                    reply.values[0] as usize
                } else {
                    0
                };
                Ok(CameraIdList::new(h, count))
            },
            None => Err(CameraError::NoMatchingCamera),
        }
    }

    /// Takes the reply to the call that opens the characteristics of a camera.
    pub fn get_metadata(&self, reply: &NativeReply) -> (r: Option<CameraMetadata>)
        ensures
            match reply.granted() {
                Some(h) => r is Some && r->0.metadata == h,
                None => r is None,
            },
    {
        match reply.handle() {
            Some(h) => Some(CameraMetadata::new(h)),
            None => None,
        }
    }

    /// The position, in the list, of the camera to use, given the
    /// lens-facing entry of each camera: the first that faces back. Fails
    /// with `NoMatchingCamera` exactly when none does.
    pub fn get_camera_id(&self, facings: &[i32]) -> (r: Result<usize, CameraError>)
        ensures
            match r {
                Ok(i) => is_first_match(facings@, FacingPolicy::Back, i as int),
                Err(e) => e == CameraError::NoMatchingCamera && forall|j: int|
                    0 <= j < facings@.len() ==> facings@[j] != FacingPolicy::Back.facing(),
            },
    {
        select_camera(facings, FacingPolicy::Back)
    }

    /// Takes the reply to the call that reads the supported stream
    /// configurations of a camera, and chooses among them. Fails with
    /// `UnsupportedConfiguration` when the entry could not be read or holds
    /// no configuration in the target format.
    pub fn get_stream_configuration(&self, reply: &NativeReply) -> (r: Result<
        StreamConfiguration,
        CameraError,
    >)
        ensures
            r == (if reply.succeeded() {
                selected_configuration(reply.values@, FORMAT_JPEG)
            } else {
                Err(CameraError::UnsupportedConfiguration)
            }),
    {
        if reply.status == crate::status::STATUS_OK {
            select_stream_configuration(reply.values.as_slice())
        } else {
            Err(CameraError::UnsupportedConfiguration)
        }
    }

    /// Takes the reply to the call that reads the orientation of the sensor
    /// of a camera: the angle, in degrees, where the entry could be read and
    /// is not empty.
    pub fn camera_rotation(&self, reply: &NativeReply) -> (r: Option<i32>)
        ensures
            r == (if reply.succeeded() && reply.values@.len() > 0 {
                Some(reply.values@[0])
            } else {
                None
            }),
    {
        if reply.status == crate::status::STATUS_OK && reply.values.len() > 0 {
            Some(reply.values[0])
        } else {
            None
        }
    }

    /// Takes the reply to the call that opens a camera. Only the submission
    /// is judged: what the device reports later does not come here.
    pub fn open_camera(&self, reply: &NativeReply) -> (r: Result<CameraDevice, CameraError>)
        ensures
            match reply.granted() {
                Some(h) => r is Ok && r->Ok_0.device == h && r->Ok_0.container is None,
                None => r == Err::<CameraDevice, CameraError>(CameraError::DeviceOpenFailed),
            },
    {
        match reply.handle() {
            Some(h) => Ok(CameraDevice::new(h)),
            None => Err(CameraError::DeviceOpenFailed),
        }
    }

    /// Takes the reply to the call that creates the image reader.
    pub fn create_image_reader(&self, reply: &NativeReply) -> (r: Result<ImageReader, CameraError>)
        ensures
            match reply.granted() {
                Some(h) => r is Ok && r->Ok_0.reader == h && !r->Ok_0.listening,
                None => r == Err::<ImageReader, CameraError>(CameraError::PipelineBuildFailed),
            },
    {
        match reply.handle() {
            Some(h) => Ok(ImageReader::new(h)),
            None => Err(CameraError::PipelineBuildFailed),
        }
    }

    /// Gives the handle back: appends the calls to make, in order.
    pub fn release_into(self, calls: &mut Vec<ReleaseCall>)
        ensures
            final(calls)@ == old(calls)@ + self.releases(),
    {
        calls.push(ReleaseCall::DeleteManager { manager: self.manager });
    }
}

} // verus!
