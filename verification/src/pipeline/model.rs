//! What a pipeline is at any moment, as contracts see it, and what each
//! event makes of it.

use vstd::prelude::*;
use crate::metadata::{
    FacingPolicy, StreamConfiguration, FORMAT_JPEG, is_first_match, selected_configuration,
};
use crate::resources::{
    CameraContext, CameraDevice, CameraIdList, CameraManager, CameraMetadata, CaptureRequest,
    CaptureSession, ImageReader, NativeWindow, OutputContainer, OutputTarget, ReleaseCall, Resource,
    ResourceKind, SessionOutput, freed,
};
use crate::rotation::{ImageRotation, resolved_rotation};
use crate::status::{CameraError, Handle, NativeReply};

verus! {

/// Where a pipeline stands.
#[derive(Clone, Copy, Debug, PartialEq, Eq, Structural)]
pub enum Phase {
    Idle,
    Enumerating,
    ConfiguringStream,
    OpeningDevice,
    BuildingGraph,
    Streaming,
    TearingDown,
}

/// The native call that a pipeline is waiting for, within its phase.
#[derive(Clone, Copy, Debug, PartialEq, Eq, Structural)]
pub enum Stage {
    Idle,
    CreatingManager,
    ListingCameras,
    OpeningCharacteristics,
    ReadingFacing,
    ClosingCharacteristics,
    ClosingIdList,
    OpeningSelected,
    ReadingConfigurations,
    ReadingOrientation,
    ClosingSelected,
    OpeningDevice,
    CreatingReader,
    GettingWindow,
    CreatingTarget,
    CreatingContainer,
    CreatingOutput,
    AddingOutput,
    CreatingSession,
    CreatingRequest,
    AddingTarget,
    SettingListener,
    StartingRepeating,
    Streaming,
    TearingDown,
}

impl Stage {
    /// The position of the stage on the way from `Idle` to `Streaming`.
    pub open spec fn rank(self) -> int {
        match self {
            Stage::Idle => 0,
            Stage::CreatingManager => 1,
            Stage::ListingCameras => 2,
            Stage::OpeningCharacteristics => 3,
            Stage::ReadingFacing => 4,
            Stage::ClosingCharacteristics => 5,
            Stage::ClosingIdList => 6,
            Stage::OpeningSelected => 7,
            Stage::ReadingConfigurations => 8,
            Stage::ReadingOrientation => 9,
            Stage::ClosingSelected => 10,
            Stage::OpeningDevice => 11,
            Stage::CreatingReader => 12,
            Stage::GettingWindow => 13,
            Stage::CreatingTarget => 14,
            Stage::CreatingContainer => 15,
            Stage::CreatingOutput => 16,
            Stage::AddingOutput => 17,
            Stage::CreatingSession => 18,
            Stage::CreatingRequest => 19,
            Stage::AddingTarget => 20,
            Stage::SettingListener => 21,
            Stage::StartingRepeating => 22,
            Stage::Streaming => 23,
            Stage::TearingDown => 24,
        }
    }

    /// The phase that the stage belongs to.
    pub open spec fn phase_of(self) -> Phase {
        match self {
            Stage::Idle => Phase::Idle,
            Stage::CreatingManager
            | Stage::ListingCameras
            | Stage::OpeningCharacteristics
            | Stage::ReadingFacing
            | Stage::ClosingCharacteristics
            | Stage::ClosingIdList => Phase::Enumerating,
            Stage::OpeningSelected
            | Stage::ReadingConfigurations
            | Stage::ReadingOrientation
            | Stage::ClosingSelected => Phase::ConfiguringStream,
            Stage::OpeningDevice => Phase::OpeningDevice,
            Stage::CreatingReader
            | Stage::GettingWindow
            | Stage::CreatingTarget
            | Stage::CreatingContainer
            | Stage::CreatingOutput
            | Stage::AddingOutput
            | Stage::CreatingSession
            | Stage::CreatingRequest
            | Stage::AddingTarget
            | Stage::SettingListener
            | Stage::StartingRepeating => Phase::BuildingGraph,
            Stage::Streaming => Phase::Streaming,
            Stage::TearingDown => Phase::TearingDown,
        }
    }

    /// Whether the stage lies on the way from `first` to `last`, both
    /// included.
    pub open spec fn between(self, first: Stage, last: Stage) -> bool {
        first.rank() <= self.rank() <= last.rank()
    }

    /// Whether a start is under way at the stage: the pipeline is neither at
    /// rest nor tearing down.
    pub open spec fn is_starting(self) -> bool {
        self.between(Stage::CreatingManager, Stage::StartingRepeating)
    }

    /// The error that a failure at this stage ends the start attempt with.
    pub open spec fn error_of(self) -> CameraError {
        match self.phase_of() {
            Phase::Enumerating => CameraError::NoMatchingCamera,
            Phase::ConfiguringStream => CameraError::UnsupportedConfiguration,
            Phase::OpeningDevice => CameraError::DeviceOpenFailed,
            _ => CameraError::PipelineBuildFailed,
        }
    }

    /// The phase that the stage belongs to.
    pub fn phase(self) -> (p: Phase)
        ensures
            p == self.phase_of(),
    {
        match self {
            Stage::Idle => Phase::Idle,
            Stage::CreatingManager
            | Stage::ListingCameras
            | Stage::OpeningCharacteristics
            | Stage::ReadingFacing
            | Stage::ClosingCharacteristics
            | Stage::ClosingIdList => Phase::Enumerating,
            Stage::OpeningSelected
            | Stage::ReadingConfigurations
            | Stage::ReadingOrientation
            | Stage::ClosingSelected => Phase::ConfiguringStream,
            Stage::OpeningDevice => Phase::OpeningDevice,
            Stage::CreatingReader
            | Stage::GettingWindow
            | Stage::CreatingTarget
            | Stage::CreatingContainer
            | Stage::CreatingOutput
            | Stage::AddingOutput
            | Stage::CreatingSession
            | Stage::CreatingRequest
            | Stage::AddingTarget
            | Stage::SettingListener
            | Stage::StartingRepeating => Phase::BuildingGraph,
            Stage::Streaming => Phase::Streaming,
            Stage::TearingDown => Phase::TearingDown,
        }
    }
}

/// The number of frames that the image reader keeps ready.
pub const MAX_IMAGES: i32 = 2;

/// A call into the native camera service.
#[derive(Clone, Copy, Debug, PartialEq, Eq, Structural)]
pub enum NativeCall {
    CreateManager,
    /// Replies with the list and, as first value, the number of cameras.
    GetCameraIdList { manager: Handle },
    /// Opens the characteristics of the camera at a position of the list.
    GetCharacteristics { manager: Handle, camera: usize },
    /// Replies with the lens-facing entry as first value.
    ReadFacing { metadata: Handle },
    /// Replies with the values of the supported-configurations entry.
    ReadStreamConfigurations { metadata: Handle },
    /// Replies with the sensor orientation, in degrees, as first value.
    ReadSensorOrientation { metadata: Handle },
    OpenCamera { manager: Handle, camera: usize },
    CreateImageReader { width: i32, height: i32, format: i32, max_images: i32 },
    GetWindow { reader: Handle },
    CreateOutputTarget { window: Handle },
    CreateOutputContainer,
    CreateSessionOutput { window: Handle },
    AddOutput { container: Handle, output: Handle },
    CreateSession { device: Handle, container: Handle },
    /// Creates a capture request from the preview template.
    CreateRequest { device: Handle },
    AddTarget { request: Handle, target: Handle },
    SetImageListener { reader: Handle },
    SetRepeatingRequest { session: Handle, request: Handle },
    /// Acquires the newest frame; older frames that were not delivered are
    /// dropped.
    AcquireLatestImage { reader: Handle },
    Release(ReleaseCall),
}

/// What the caller does next.
#[derive(Clone, Copy, Debug, PartialEq, Eq, Structural)]
pub enum Step {
    /// Make the call and hand its reply to `advance`.
    Call(NativeCall),
    /// Ask the user for access to the camera; the start is not attempted.
    RequestPermission,
    /// Wait until the frames that are being processed have been given back.
    AwaitFrames,
    /// The pipeline is at rest: streaming, or idle with nothing to report.
    Done,
    /// The pipeline is idle: the last start ended with this error, and what
    /// it had created was given back.
    Failed(CameraError),
}

/// The state of a pipeline as contracts see it.
#[verifier::ext_equal]
pub struct PipelineView {
    pub stage: Stage,
    pub policy: FacingPolicy,
    pub device_rotation_deg: i32,
    /// The position, in the list, of the camera that is examined or selected.
    pub cursor: usize,
    /// Whether the camera at `cursor` faces the way the policy asks for.
    pub matched: bool,
    pub configuration: Option<StreamConfiguration>,
    pub rotation: ImageRotation,
    /// The error that ended the last start attempt.
    pub failure: Option<CameraError>,
    /// The number of frames acquired and not yet given back.
    pub in_flight: usize,
    pub context: CameraContext,
    /// The calls of the teardown that is under way.
    pub pending: Seq<ReleaseCall>,
    /// How many of them have been made.
    pub next: int,
}

impl PipelineView {
    /// A pipeline that has not been started.
    pub open spec fn idle(policy: FacingPolicy) -> PipelineView {
        PipelineView {
            stage: Stage::Idle,
            policy,
            device_rotation_deg: 0,
            cursor: 0,
            matched: false,
            configuration: None,
            rotation: ImageRotation::Deg0,
            failure: None,
            in_flight: 0,
            context: CameraContext::empty(),
            pending: Seq::empty(),
            next: 0,
        }
    }

    /// The handles that are live.
    pub open spec fn ledger(self) -> Seq<Resource> {
        if self.stage == Stage::TearingDown {
            freed(self.pending.skip(self.next))
        } else {
            self.context.resources()
        }
    }

    /// Which handles exist at which stage, and how they are linked.
    pub open spec fn graph_wf(self) -> bool {
        let s = self.stage;
        let c = self.context;
        &&& c.manager is Some <==> s.between(Stage::ListingCameras, Stage::Streaming)
        &&& c.id_list is Some <==> s.between(Stage::OpeningCharacteristics, Stage::ClosingIdList)
        &&& c.metadata is Some <==> (s.between(Stage::ReadingFacing, Stage::ClosingCharacteristics)
            || s.between(Stage::ReadingConfigurations, Stage::ClosingSelected))
        &&& c.device is Some <==> s.between(Stage::CreatingReader, Stage::Streaming)
        &&& c.image_reader is Some <==> s.between(Stage::GettingWindow, Stage::Streaming)
        &&& c.window is Some <==> s.between(Stage::CreatingTarget, Stage::Streaming)
        &&& c.target is Some <==> s.between(Stage::CreatingContainer, Stage::AddingTarget)
        &&& c.container is Some <==> s.between(Stage::CreatingOutput, Stage::CreatingSession)
        &&& c.output is Some <==> s == Stage::AddingOutput
        &&& c.session is Some <==> s.between(Stage::CreatingRequest, Stage::Streaming)
        &&& c.request is Some <==> s.between(Stage::AddingTarget, Stage::StartingRepeating)
        &&& c.device is Some ==> (c.device.unwrap().container is Some <==> s.between(
            Stage::CreatingRequest,
            Stage::Streaming,
        ))
        &&& c.device is Some && c.device.unwrap().container is Some
            ==> c.device.unwrap().container.unwrap().output is Some
        &&& c.container is Some ==> (c.container.unwrap().output is Some <==> s
            == Stage::CreatingSession)
        &&& c.image_reader is Some ==> (c.image_reader.unwrap().listening <==> s.between(
            Stage::StartingRepeating,
            Stage::Streaming,
        ))
        &&& c.session is Some ==> (c.session.unwrap().request is Some <==> s == Stage::Streaming)
        &&& c.session is Some && c.session.unwrap().request is Some
            ==> c.session.unwrap().request.unwrap().target is Some
        &&& c.request is Some ==> (c.request.unwrap().target is Some <==> s.between(
            Stage::SettingListener,
            Stage::StartingRepeating,
        ))
    }

    /// The invariant of a pipeline: the handles fit the stage, a
    /// configuration is held from the moment it is chosen until the pipeline
    /// stops, the camera that is examined is one of the list, frames are in
    /// flight only while the pipeline streams or tears down, and a teardown
    /// has a call left to make, which is how frames in flight know that the
    /// image reader is still to be deleted.
    pub open spec fn wf(self) -> bool {
        &&& self.graph_wf()
        &&& self.configuration is Some <==> self.stage.between(
            Stage::ReadingOrientation,
            Stage::Streaming,
        )
        &&& self.context.id_list is Some ==> self.cursor < self.context.id_list.unwrap().count
        &&& self.in_flight > 0 ==> self.stage == Stage::Streaming || self.stage
            == Stage::TearingDown
        &&& self.stage == Stage::TearingDown ==> {
            &&& 0 <= self.next < self.pending.len()
            &&& self.in_flight > 0 ==> exists|i: int|
                self.next <= i < self.pending.len() && #[trigger] self.pending[i] is DeleteReader
        }
    }

    /// What the caller does next.
    pub open spec fn pending_step(self) -> Step {
        let c = self.context;
        match self.stage {
            Stage::Idle => match self.failure {
                Some(e) => Step::Failed(e),
                None => Step::Done,
            },
            Stage::CreatingManager => Step::Call(NativeCall::CreateManager),
            Stage::ListingCameras => Step::Call(
                NativeCall::GetCameraIdList { manager: c.manager.unwrap().manager },
            ),
            Stage::OpeningCharacteristics | Stage::OpeningSelected => Step::Call(
                NativeCall::GetCharacteristics {
                    manager: c.manager.unwrap().manager,
                    camera: self.cursor,
                },
            ),
            Stage::ReadingFacing => Step::Call(
                NativeCall::ReadFacing { metadata: c.metadata.unwrap().metadata },
            ),
            Stage::ClosingCharacteristics | Stage::ClosingSelected => Step::Call(
                NativeCall::Release(
                    ReleaseCall::FreeMetadata { metadata: c.metadata.unwrap().metadata },
                ),
            ),
            Stage::ClosingIdList => Step::Call(
                NativeCall::Release(ReleaseCall::DeleteIdList { list: c.id_list.unwrap().list }),
            ),
            Stage::ReadingConfigurations => Step::Call(
                NativeCall::ReadStreamConfigurations { metadata: c.metadata.unwrap().metadata },
            ),
            Stage::ReadingOrientation => Step::Call(
                NativeCall::ReadSensorOrientation { metadata: c.metadata.unwrap().metadata },
            ),
            Stage::OpeningDevice => Step::Call(
                NativeCall::OpenCamera { manager: c.manager.unwrap().manager, camera: self.cursor },
            ),
            Stage::CreatingReader => Step::Call(
                NativeCall::CreateImageReader {
                    width: self.configuration.unwrap().width,
                    height: self.configuration.unwrap().height,
                    format: self.configuration.unwrap().format,
                    max_images: MAX_IMAGES,
                },
            ),
            Stage::GettingWindow => Step::Call(
                NativeCall::GetWindow { reader: c.image_reader.unwrap().reader },
            ),
            Stage::CreatingTarget => Step::Call(
                NativeCall::CreateOutputTarget { window: c.window.unwrap().window },
            ),
            Stage::CreatingContainer => Step::Call(NativeCall::CreateOutputContainer),
            Stage::CreatingOutput => Step::Call(
                NativeCall::CreateSessionOutput { window: c.window.unwrap().window },
            ),
            Stage::AddingOutput => Step::Call(
                NativeCall::AddOutput {
                    container: c.container.unwrap().container,
                    output: c.output.unwrap().output,
                },
            ),
            Stage::CreatingSession => Step::Call(
                NativeCall::CreateSession {
                    device: c.device.unwrap().device,
                    container: c.container.unwrap().container,
                },
            ),
            Stage::CreatingRequest => Step::Call(
                NativeCall::CreateRequest { device: c.device.unwrap().device },
            ),
            Stage::AddingTarget => Step::Call(
                NativeCall::AddTarget {
                    request: c.request.unwrap().request,
                    target: c.target.unwrap().target,
                },
            ),
            Stage::SettingListener => Step::Call(
                NativeCall::SetImageListener { reader: c.image_reader.unwrap().reader },
            ),
            Stage::StartingRepeating => Step::Call(
                NativeCall::SetRepeatingRequest {
                    session: c.session.unwrap().session,
                    request: c.request.unwrap().request,
                },
            ),
            Stage::Streaming => Step::Done,
            Stage::TearingDown => if self.awaits_frames() {
                Step::AwaitFrames
            } else {
                Step::Call(NativeCall::Release(self.pending[self.next]))
            },
        }
    }

    /// Whether the teardown has come to the image reader while frames are
    /// still being processed. The reader is not deleted before they are
    /// given back.
    pub open spec fn awaits_frames(self) -> bool {
        self.stage == Stage::TearingDown && self.in_flight > 0 && self.pending[self.next]
            is DeleteReader
    }

    /// The state after everything was handed over to be given back, with
    /// `failure` as the way the start ended.
    pub open spec fn torn_down(self, failure: Option<CameraError>) -> PipelineView {
        let calls = self.context.releases();
        PipelineView {
            stage: if calls.len() == 0 {
                Stage::Idle
            } else {
                Stage::TearingDown
            },
            failure,
            configuration: None,
            context: CameraContext::empty(),
            pending: calls,
            next: 0,
            ..self
        }
    }

    /// The state after a failure at the current stage.
    pub open spec fn failed(self) -> PipelineView {
        self.torn_down(Some(self.stage.error_of()))
    }

    /// The state with the context replaced and the next stage entered.
    pub open spec fn moved(self, stage: Stage, context: CameraContext) -> PipelineView {
        PipelineView { stage, context, ..self }
    }

    /// The state after the reply to the pending call.
    pub open spec fn after(self, reply: NativeReply) -> PipelineView {
        let c = self.context;
        match self.stage {
            Stage::Idle | Stage::Streaming => self,
            Stage::CreatingManager => match reply.granted() {
                Some(h) => self.moved(
                    Stage::ListingCameras,
                    CameraContext { manager: Some(CameraManager { manager: h }), ..c },
                ),
                None => self.failed(),
            },
            Stage::ListingCameras => match reply.granted() {
                Some(h) => {
                    let count: usize = if reply.values@.len() > 0 && reply.values@[0] > 0 {
                        reply.values@[0] as usize
                    } else {
                        0
                    };
                    let listed = PipelineView {
                        context: CameraContext {
                            id_list: Some(CameraIdList { list: h, count }),
                            ..c
                        },
                        cursor: 0,
                        matched: false,
                        ..self
                    };
                    if count == 0 {
                        listed.failed()
                    } else {
                        PipelineView { stage: Stage::OpeningCharacteristics, ..listed }
                    }
                },
                None => self.failed(),
            },
            Stage::OpeningCharacteristics => match reply.granted() {
                Some(h) => self.moved(
                    Stage::ReadingFacing,
                    CameraContext { metadata: Some(CameraMetadata { metadata: h }), ..c },
                ),
                None => self.failed(),
            },
            Stage::ReadingFacing => if reply.succeeded() && reply.values@.len() > 0 {
                PipelineView {
                    stage: Stage::ClosingCharacteristics,
                    matched: reply.values@[0] == self.policy.facing(),
                    ..self
                }
            } else {
                self.failed()
            },
            Stage::ClosingCharacteristics => {
                let closed = PipelineView {
                    context: CameraContext { metadata: None, ..c },
                    ..self
                };
                if self.matched {
                    PipelineView { stage: Stage::ClosingIdList, ..closed }
                } else if self.cursor + 1 < c.id_list.unwrap().count {
                    PipelineView {
                        stage: Stage::OpeningCharacteristics,
                        cursor: (self.cursor + 1) as usize,
                        ..closed
                    }
                } else {
                    closed.failed()
                }
            },
            Stage::ClosingIdList => self.moved(
                Stage::OpeningSelected,
                CameraContext { id_list: None, ..c },
            ),
            Stage::OpeningSelected => match reply.granted() {
                Some(h) => self.moved(
                    Stage::ReadingConfigurations,
                    CameraContext { metadata: Some(CameraMetadata { metadata: h }), ..c },
                ),
                None => self.failed(),
            },
            Stage::ReadingConfigurations => if reply.succeeded() {
                match selected_configuration(reply.values@, FORMAT_JPEG) {
                    Ok(chosen) => PipelineView {
                        stage: Stage::ReadingOrientation,
                        configuration: Some(chosen),
                        ..self
                    },
                    Err(_) => self.failed(),
                }
            } else {
                self.failed()
            },
            Stage::ReadingOrientation => if reply.succeeded() && reply.values@.len() > 0 {
                PipelineView {
                    stage: Stage::ClosingSelected,
                    rotation: resolved_rotation(
                        reply.values@[0] as int,
                        self.device_rotation_deg as int,
                    ),
                    ..self
                }
            } else {
                self.failed()
            },
            Stage::ClosingSelected => self.moved(
                Stage::OpeningDevice,
                CameraContext { metadata: None, ..c },
            ),
            Stage::OpeningDevice => match reply.granted() {
                Some(h) => self.moved(
                    Stage::CreatingReader,
                    CameraContext { device: Some(CameraDevice { device: h, container: None }), ..c },
                ),
                None => self.failed(),
            },
            Stage::CreatingReader => match reply.granted() {
                Some(h) => self.moved(
                    Stage::GettingWindow,
                    CameraContext {
                        image_reader: Some(ImageReader { reader: h, listening: false }),
                        ..c
                    },
                ),
                None => self.failed(),
            },
            Stage::GettingWindow => match reply.granted() {
                Some(h) => self.moved(
                    Stage::CreatingTarget,
                    CameraContext { window: Some(NativeWindow { window: h }), ..c },
                ),
                None => self.failed(),
            },
            Stage::CreatingTarget => match reply.granted() {
                Some(h) => self.moved(
                    Stage::CreatingContainer,
                    CameraContext { target: Some(OutputTarget { target: h }), ..c },
                ),
                None => self.failed(),
            },
            Stage::CreatingContainer => match reply.granted() {
                Some(h) => self.moved(
                    Stage::CreatingOutput,
                    CameraContext {
                        container: Some(OutputContainer { container: h, output: None }),
                        ..c
                    },
                ),
                None => self.failed(),
            },
            Stage::CreatingOutput => match reply.granted() {
                Some(h) => self.moved(
                    Stage::AddingOutput,
                    CameraContext { output: Some(SessionOutput { output: h }), ..c },
                ),
                None => self.failed(),
            },
            Stage::AddingOutput => if reply.succeeded() {
                self.moved(
                    Stage::CreatingSession,
                    CameraContext {
                        container: Some(
                            OutputContainer { container: c.container.unwrap().container, output: c.output },
                        ),
                        output: None,
                        ..c
                    },
                )
            } else {
                self.failed()
            },
            Stage::CreatingSession => match reply.granted() {
                Some(h) => self.moved(
                    Stage::CreatingRequest,
                    CameraContext {
                        session: Some(CaptureSession { session: h, request: None }),
                        device: Some(
                            CameraDevice {
                                device: c.device.unwrap().device,
                                container: c.container,
                            },
                        ),
                        container: None,
                        ..c
                    },
                ),
                None => self.failed(),
            },
            Stage::CreatingRequest => match reply.granted() {
                Some(h) => self.moved(
                    Stage::AddingTarget,
                    CameraContext { request: Some(CaptureRequest { request: h, target: None }), ..c },
                ),
                None => self.failed(),
            },
            Stage::AddingTarget => if reply.succeeded() {
                self.moved(
                    Stage::SettingListener,
                    CameraContext {
                        request: Some(
                            CaptureRequest { request: c.request.unwrap().request, target: c.target },
                        ),
                        target: None,
                        ..c
                    },
                )
            } else {
                self.failed()
            },
            Stage::SettingListener => if reply.succeeded() {
                self.moved(
                    Stage::StartingRepeating,
                    CameraContext {
                        image_reader: Some(
                            ImageReader { reader: c.image_reader.unwrap().reader, listening: true },
                        ),
                        ..c
                    },
                )
            } else {
                self.failed()
            },
            Stage::StartingRepeating => if reply.succeeded() {
                self.moved(
                    Stage::Streaming,
                    CameraContext {
                        session: Some(
                            CaptureSession { session: c.session.unwrap().session, request: c.request },
                        ),
                        request: None,
                        ..c
                    },
                )
            } else {
                self.failed()
            },
            Stage::TearingDown => if self.awaits_frames() {
                self
            } else if self.next + 1 < self.pending.len() {
                PipelineView { next: self.next + 1, ..self }
            } else {
                PipelineView { stage: Stage::Idle, next: self.next + 1, ..self }
            },
        }
    }

    /// The state after a request to start capturing.
    pub open spec fn started(self, has_permission: bool, device_rotation_deg: i32) -> PipelineView {
        if self.stage == Stage::Idle && has_permission {
            PipelineView {
                stage: Stage::CreatingManager,
                device_rotation_deg,
                cursor: 0,
                matched: false,
                configuration: None,
                rotation: ImageRotation::Deg0,
                failure: None,
                ..self
            }
        } else {
            self
        }
    }

    /// The state after a request to stop capturing.
    pub open spec fn stopped(self) -> PipelineView {
        if self.stage == Stage::Streaming {
            self.torn_down(None)
        } else {
            self
        }
    }

    /// Whether a frame may be acquired: only while streaming, when the image
    /// reader is known to be live.
    pub open spec fn admits_frame(self) -> bool {
        self.stage == Stage::Streaming && self.in_flight < usize::MAX
    }

    /// The state after the frame callback was entered.
    pub open spec fn frame_begun(self) -> PipelineView {
        if self.admits_frame() {
            PipelineView { in_flight: (self.in_flight + 1) as usize, ..self }
        } else {
            self
        }
    }

    /// The state after a frame was given back.
    pub open spec fn frame_ended(self) -> PipelineView {
        if self.in_flight > 0 {
            PipelineView { in_flight: (self.in_flight - 1) as usize, ..self }
        } else {
            self
        }
    }

    /// The state after an event.
    pub open spec fn on(self, event: Event) -> PipelineView {
        match event {
            Event::Start { has_permission, device_rotation_deg } => self.started(
                has_permission,
                device_rotation_deg,
            ),
            Event::Stop => self.stopped(),
            Event::Reply(reply) => self.after(reply),
            Event::FrameBegin => self.frame_begun(),
            Event::FrameEnd => self.frame_ended(),
        }
    }

    /// The state after a sequence of events.
    pub open spec fn run(self, events: Seq<Event>) -> PipelineView
        decreases events.len(),
    {
        if events.len() == 0 {
            self
        } else {
            self.run(events.drop_last()).on(events.last())
        }
    }

    /// The handle that the reply to the pending call hands to the pipeline
    /// to own. The surface of the image reader stays the reader's.
    pub open spec fn created_by(self, reply: NativeReply) -> Option<Resource> {
        match (self.stage, reply.granted()) {
            (Stage::CreatingManager, Some(h)) => Some(
                Resource { kind: ResourceKind::Manager, handle: h },
            ),
            (Stage::ListingCameras, Some(h)) => Some(
                Resource { kind: ResourceKind::IdList, handle: h },
            ),
            (Stage::OpeningCharacteristics, Some(h)) | (Stage::OpeningSelected, Some(h)) => Some(
                Resource { kind: ResourceKind::Metadata, handle: h },
            ),
            (Stage::OpeningDevice, Some(h)) => Some(
                Resource { kind: ResourceKind::Device, handle: h },
            ),
            (Stage::CreatingReader, Some(h)) => Some(
                Resource { kind: ResourceKind::Reader, handle: h },
            ),
            (Stage::CreatingTarget, Some(h)) => Some(
                Resource { kind: ResourceKind::Target, handle: h },
            ),
            (Stage::CreatingContainer, Some(h)) => Some(
                Resource { kind: ResourceKind::Container, handle: h },
            ),
            (Stage::CreatingOutput, Some(h)) => Some(
                Resource { kind: ResourceKind::Output, handle: h },
            ),
            (Stage::CreatingSession, Some(h)) => Some(
                Resource { kind: ResourceKind::Session, handle: h },
            ),
            (Stage::CreatingRequest, Some(h)) => Some(
                Resource { kind: ResourceKind::Request, handle: h },
            ),
            _ => None,
        }
    }

    /// The handle that the pending call gives back.
    pub open spec fn released_by_pending(self) -> Option<Resource> {
        match self.pending_step() {
            Step::Call(NativeCall::Release(call)) => call.frees(),
            _ => None,
        }
    }

    /// The number of handles that an event adds to those the pipeline owns.
    pub open spec fn created_on(self, event: Event) -> int {
        match event {
            Event::Reply(reply) => if self.created_by(reply) is Some {
                1
            } else {
                0
            },
            _ => 0,
        }
    }

    /// The number of handles that were given back by the call that an event
    /// replies to.
    pub open spec fn released_on(self, event: Event) -> int {
        match event {
            Event::Reply(_) => if self.released_by_pending() is Some {
                1
            } else {
                0
            },
            _ => 0,
        }
    }

    /// The number of handles created over a sequence of events.
    pub open spec fn created_in(self, events: Seq<Event>) -> int
        decreases events.len(),
    {
        if events.len() == 0 {
            0
        } else {
            self.created_in(events.drop_last()) + self.run(events.drop_last()).created_on(
                events.last(),
            )
        }
    }

    /// The number of handles given back over a sequence of events.
    pub open spec fn released_in(self, events: Seq<Event>) -> int
        decreases events.len(),
    {
        if events.len() == 0 {
            0
        } else {
            self.released_in(events.drop_last()) + self.run(events.drop_last()).released_on(
                events.last(),
            )
        }
    }
}

/// What can happen to a pipeline.
pub enum Event {
    /// The user asks for capture to start.
    Start { has_permission: bool, device_rotation_deg: i32 },
    /// The user asks for capture to stop.
    Stop,
    /// The pending native call has returned.
    Reply(NativeReply),
    /// The frame callback was entered.
    FrameBegin,
    /// A frame was given back.
    FrameEnd,
}

/// The context that a failure at the stage of `v` hands over to the
/// teardown.
pub open spec fn handed_over(v: PipelineView, reply: NativeReply) -> CameraContext {
    let c = v.context;
    if v.stage == Stage::ListingCameras && reply.granted() is Some {
        CameraContext {
            id_list: Some(CameraIdList { list: reply.granted().unwrap(), count: 0 }),
            ..c
        }
    } else if v.stage == Stage::ClosingCharacteristics {
        CameraContext { metadata: None, ..c }
    } else {
        c
    }
}

impl PipelineView {
    /// Whether a reply to the pending call says of the cameras what
    /// `facings` says: the list holds as many cameras, and the lens of the
    /// camera that is examined faces as listed.
    pub open spec fn is_true_of(self, reply: NativeReply, facings: Seq<i32>) -> bool {
        &&& self.stage == Stage::ListingCameras && reply.granted() is Some
            ==> reply.values@.len() > 0 && reply.values@[0] == facings.len()
        &&& self.stage == Stage::ReadingFacing && reply.succeeded() && reply.values@.len() > 0
            ==> self.cursor < facings.len() && reply.values@[0] == facings[self.cursor as int]
    }

    /// Whether the search for a camera has gone by the order of the list:
    /// the cameras before the one that is examined do not face the wanted
    /// way, and a camera that was selected is the first that does.
    pub open spec fn searched_in_order(self, facings: Seq<i32>) -> bool {
        let wanted = self.policy.facing();
        &&& self.context.id_list is Some ==> self.context.id_list.unwrap().count == facings.len()
        &&& self.stage.between(Stage::OpeningCharacteristics, Stage::ClosingCharacteristics)
            ==> forall|j: int| 0 <= j < self.cursor ==> facings[j] != wanted
        &&& self.stage == Stage::ClosingCharacteristics ==> self.matched == (
        facings[self.cursor as int] == wanted)
        &&& self.stage.between(Stage::ClosingIdList, Stage::Streaming) ==> is_first_match(
            facings,
            self.policy,
            self.cursor as int,
        )
    }
}

} // verus!
