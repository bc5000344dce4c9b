//! The pipeline that the caller holds: it takes the replies and names the
//! calls.

use vstd::prelude::*;
use crate::metadata::{FacingPolicy, StreamConfiguration};
use crate::pipeline::laws::lemma_after_keeps_wf;
use crate::pipeline::model::{MAX_IMAGES, NativeCall, Phase, PipelineView, Stage, Step};
use crate::resources::{
    CameraContext, CameraManager, ReleaseCall, Resource, lemma_empty_context,
    lemma_manager_is_released, lemma_reader_is_released,
};
use crate::rotation::{ImageRotation, resolve_rotation};
use crate::status::{CameraError, NativeReply, STATUS_OK};

verus! {

/// A capture pipeline. It is made idle and changed only by its own
/// operations, which keep its invariant.
#[derive(Debug)]
pub struct Pipeline {
    stage: Stage,
    policy: FacingPolicy,
    device_rotation_deg: i32,
    cursor: usize,
    matched: bool,
    configuration: Option<StreamConfiguration>,
    rotation: ImageRotation,
    failure: Option<CameraError>,
    in_flight: usize,
    context: CameraContext,
    pending: Vec<ReleaseCall>,
    next: usize,
}

impl View for Pipeline {
    type V = PipelineView;

    closed spec fn view(&self) -> PipelineView {
        PipelineView {
            stage: self.stage,
            policy: self.policy,
            device_rotation_deg: self.device_rotation_deg,
            cursor: self.cursor,
            matched: self.matched,
            configuration: self.configuration,
            rotation: self.rotation,
            failure: self.failure,
            in_flight: self.in_flight,
            context: self.context,
            pending: self.pending@,
            next: self.next as int,
        }
    }
}

impl Pipeline {
    /// An idle pipeline that will look for a camera that `policy` accepts.
    pub fn new(policy: FacingPolicy) -> (p: Pipeline)
        ensures
            p@ == PipelineView::idle(policy),
            p@.wf(),
            p@.ledger() == Seq::<Resource>::empty(),
    {
        let p = Pipeline {
            stage: Stage::Idle,
            policy,
            device_rotation_deg: 0,
            cursor: 0,
            matched: false,
            configuration: None,
            rotation: ImageRotation::Deg0,
            failure: None,
            in_flight: 0,
            context: CameraContext::new(),
            pending: Vec::new(),
            next: 0,
        };
        proof {
            lemma_empty_context();
            assert(p@ =~~= PipelineView::idle(policy));
        }
        p
    }

    /// Where the pipeline stands.
    pub fn phase(&self) -> (p: Phase)
        ensures
            p == self@.stage.phase_of(),
    {
        self.stage.phase()
    }

    /// The call that the pipeline is waiting for.
    pub fn stage(&self) -> (s: Stage)
        ensures
            s == self@.stage,
    {
        self.stage
    }

    /// The position, in the list, of the camera that is examined or was
    /// selected.
    pub fn selected_camera(&self) -> (camera: usize)
        ensures
            camera == self@.cursor,
    {
        self.cursor
    }

    /// The stream configuration, once it is chosen.
    pub fn configuration(&self) -> (c: Option<StreamConfiguration>)
        ensures
            c == self@.configuration,
    {
        self.configuration
    }

    /// The rotation that was resolved when the stream was configured.
    pub fn rotation(&self) -> (r: ImageRotation)
        ensures
            r == self@.rotation,
    {
        self.rotation
    }

    /// The rotation of the display that the last start was given.
    pub fn device_rotation_deg(&self) -> (r: i32)
        ensures
            r == self@.device_rotation_deg,
    {
        self.device_rotation_deg
    }

    /// The error that ended the last start, if it failed.
    pub fn failure(&self) -> (e: Option<CameraError>)
        ensures
            e == self@.failure,
    {
        self.failure
    }

    /// The number of frames that were acquired and not yet given back.
    pub fn in_flight(&self) -> (frames: usize)
        ensures
            frames == self@.in_flight,
    {
        self.in_flight
    }

    /// What the caller does next.
    pub fn current_step(&self) -> (step: Step)
        requires
            self@.wf(),
        ensures
            step == self@.pending_step(),
    {
        let c = &self.context;
        match self.stage {
            Stage::Idle => match self.failure {
                Some(e) => Step::Failed(e),
                None => Step::Done,
            },
            Stage::CreatingManager => Step::Call(NativeCall::CreateManager),
            Stage::ListingCameras => Step::Call(
                NativeCall::GetCameraIdList { manager: c.manager.as_ref().unwrap().manager },
            ),
            Stage::OpeningCharacteristics | Stage::OpeningSelected => Step::Call(
                NativeCall::GetCharacteristics {
                    manager: c.manager.as_ref().unwrap().manager,
                    camera: self.cursor,
                },
            ),
            Stage::ReadingFacing => Step::Call(
                NativeCall::ReadFacing { metadata: c.metadata.as_ref().unwrap().metadata },
            ),
            Stage::ClosingCharacteristics | Stage::ClosingSelected => Step::Call(
                NativeCall::Release(
                    ReleaseCall::FreeMetadata { metadata: c.metadata.as_ref().unwrap().metadata },
                ),
            ),
            Stage::ClosingIdList => Step::Call(
                NativeCall::Release(
                    ReleaseCall::DeleteIdList { list: c.id_list.as_ref().unwrap().list },
                ),
            ),
            Stage::ReadingConfigurations => Step::Call(
                NativeCall::ReadStreamConfigurations {
                    metadata: c.metadata.as_ref().unwrap().metadata,
                },
            ),
            Stage::ReadingOrientation => Step::Call(
                NativeCall::ReadSensorOrientation { metadata: c.metadata.as_ref().unwrap().metadata },
            ),
            Stage::OpeningDevice => Step::Call(
                NativeCall::OpenCamera {
                    manager: c.manager.as_ref().unwrap().manager,
                    camera: self.cursor,
                },
            ),
            Stage::CreatingReader => {
                let configuration = self.configuration.unwrap();
                Step::Call(
                    NativeCall::CreateImageReader {
                        width: configuration.width,
                        height: configuration.height,
                        format: configuration.format,
                        max_images: MAX_IMAGES,
                    },
                )
            },
            Stage::GettingWindow => Step::Call(
                NativeCall::GetWindow { reader: c.image_reader.as_ref().unwrap().reader },
            ),
            Stage::CreatingTarget => Step::Call(
                NativeCall::CreateOutputTarget { window: c.window.as_ref().unwrap().window },
            ),
            Stage::CreatingContainer => Step::Call(NativeCall::CreateOutputContainer),
            Stage::CreatingOutput => Step::Call(
                NativeCall::CreateSessionOutput { window: c.window.as_ref().unwrap().window },
            ),
            Stage::AddingOutput => Step::Call(
                NativeCall::AddOutput {
                    container: c.container.as_ref().unwrap().container,
                    output: c.output.as_ref().unwrap().output,
                },
            ),
            Stage::CreatingSession => Step::Call(
                NativeCall::CreateSession {
                    device: c.device.as_ref().unwrap().device,
                    container: c.container.as_ref().unwrap().container,
                },
            ),
            Stage::CreatingRequest => Step::Call(
                NativeCall::CreateRequest { device: c.device.as_ref().unwrap().device },
            ),
            Stage::AddingTarget => Step::Call(
                NativeCall::AddTarget {
                    request: c.request.as_ref().unwrap().request,
                    target: c.target.as_ref().unwrap().target,
                },
            ),
            Stage::SettingListener => Step::Call(
                NativeCall::SetImageListener { reader: c.image_reader.as_ref().unwrap().reader },
            ),
            Stage::StartingRepeating => Step::Call(
                NativeCall::SetRepeatingRequest {
                    session: c.session.as_ref().unwrap().session,
                    request: c.request.as_ref().unwrap().request,
                },
            ),
            Stage::Streaming => Step::Done,
            Stage::TearingDown => {
                let call = self.pending[self.next];
                let is_reader = match call {
                    ReleaseCall::DeleteReader { .. } => true,
                    _ => false,
                };
                if is_reader && self.in_flight > 0 {
                    Step::AwaitFrames
                } else {
                    Step::Call(NativeCall::Release(call))
                }
            },
        }
    }

    /// Hands everything over to be given back.
    fn tear_down(&mut self, failure: Option<CameraError>)
        ensures
            final(self)@ =~~= old(self)@.torn_down(failure),
    {
        let mut taken = CameraContext::new();
        core::mem::swap(&mut self.context, &mut taken);
        let calls = taken.release();
        self.stage = if calls.len() == 0 {
            Stage::Idle
        } else {
            Stage::TearingDown
        };
        self.failure = failure;
        self.configuration = None;
        self.pending = calls;
        self.next = 0;
    }

    /// Gives up the start at the current stage.
    fn fail(&mut self)
        ensures
            final(self)@ =~~= old(self)@.failed(),
    {
        let error = match self.stage.phase() {
            Phase::Enumerating => CameraError::NoMatchingCamera,
            Phase::ConfiguringStream => CameraError::UnsupportedConfiguration,
            Phase::OpeningDevice => CameraError::DeviceOpenFailed,
            _ => CameraError::PipelineBuildFailed,
        };
        self.tear_down(Some(error));
    }

    /// Takes the reply to the call that `current_step` named, and says what
    /// to do next. While the pipeline is at rest, or waits for frames, the
    /// reply changes nothing.
    pub fn advance(&mut self, reply: &NativeReply) -> (step: Step)
        requires
            old(self)@.wf(),
        ensures
            final(self)@ == old(self)@.after(*reply),
            final(self)@.wf(),
            step == final(self)@.pending_step(),
    {
        match self.stage {
            Stage::Idle | Stage::Streaming => {},
            Stage::TearingDown => {
                self.advance_teardown();
            },
            Stage::CreatingManager
            | Stage::ListingCameras
            | Stage::OpeningCharacteristics
            | Stage::ReadingFacing
            | Stage::ClosingCharacteristics
            | Stage::ClosingIdList => {
                self.advance_enumerating(reply);
            },
            Stage::OpeningSelected
            | Stage::ReadingConfigurations
            | Stage::ReadingOrientation
            | Stage::ClosingSelected
            | Stage::OpeningDevice => {
                self.advance_configuring(reply);
            },
            Stage::CreatingReader
            | Stage::GettingWindow
            | Stage::CreatingTarget
            | Stage::CreatingContainer
            | Stage::CreatingOutput
            | Stage::AddingOutput => {
                self.advance_outputs(reply);
            },
            _ => {
                self.advance_session(reply);
            },
        }
        proof {
            lemma_after_keeps_wf(old(self)@, *reply);
        }
        self.current_step()
    }

    /// Takes the reply to a call of the teardown.
    fn advance_teardown(&mut self)
        requires
            old(self)@.wf(),
            old(self)@.stage == Stage::TearingDown,
        ensures
            forall|reply: NativeReply| final(self)@ =~~= #[trigger] old(self)@.after(reply),
    {
        let count = self.pending.len();
        let call = self.pending[self.next];
        let is_reader = match call {
            ReleaseCall::DeleteReader { .. } => true,
            _ => false,
        };
        if is_reader && self.in_flight > 0 {
        } else {
            self.next = self.next + 1;
            if self.next >= count {
                self.stage = Stage::Idle;
            }
        }
    }

    /// Takes a reply while the cameras are searched.
    fn advance_enumerating(&mut self, reply: &NativeReply)
        requires
            old(self)@.wf(),
            old(self)@.stage.phase_of() == Phase::Enumerating,
        ensures
            final(self)@ =~~= old(self)@.after(*reply),
    {
        match self.stage {
            Stage::CreatingManager => match reply.handle() {
                Some(h) => {
                    self.context.manager = Some(CameraManager::new(h));
                    self.stage = Stage::ListingCameras;
                },
                None => {
                    self.fail();
                },
            },
            Stage::ListingCameras => {
                let listed = self.context.manager.as_ref().unwrap().camera_id_list(reply);
                match listed {
                    Ok(list) => {
                        let count = list.count;
                        self.context.id_list = Some(list);
                        self.cursor = 0;
                        self.matched = false;
                        if count == 0 {
                            self.fail();
                        } else {
                            self.stage = Stage::OpeningCharacteristics;
                        }
                    },
                    Err(_) => {
                        self.fail();
                    },
                }
            },
            Stage::OpeningCharacteristics => {
                let opened = self.context.manager.as_ref().unwrap().get_metadata(reply);
                match opened {
                    Some(metadata) => {
                        self.context.metadata = Some(metadata);
                        self.stage = Stage::ReadingFacing;
                    },
                    None => {
                        self.fail();
                    },
                }
            },
            Stage::ReadingFacing => {
                if reply.status == STATUS_OK && reply.values.len() > 0 {
                    self.matched = self.policy.accepts(reply.values[0]);
                    self.stage = Stage::ClosingCharacteristics;
                } else {
                    self.fail();
                }
            },
            Stage::ClosingCharacteristics => {
                self.context.metadata = None;
                if self.matched {
                    self.stage = Stage::ClosingIdList;
                } else if self.cursor + 1 < self.context.id_list.as_ref().unwrap().count {
                    self.cursor = self.cursor + 1;
                    self.stage = Stage::OpeningCharacteristics;
                } else {
                    self.fail();
                }
            },
            _ => {
                self.context.id_list = None;
                self.stage = Stage::OpeningSelected;
            },
        }
    }

    /// Takes a reply while the stream is configured and the device opened.
    fn advance_configuring(&mut self, reply: &NativeReply)
        requires
            old(self)@.wf(),
            old(self)@.stage.between(Stage::OpeningSelected, Stage::OpeningDevice),
        ensures
            final(self)@ =~~= old(self)@.after(*reply),
    {
        match self.stage {
            Stage::OpeningSelected => {
                let opened = self.context.manager.as_ref().unwrap().get_metadata(reply);
                match opened {
                    Some(metadata) => {
                        self.context.metadata = Some(metadata);
                        self.stage = Stage::ReadingConfigurations;
                    },
                    None => {
                        self.fail();
                    },
                }
            },
            Stage::ReadingConfigurations => {
                let chosen = self.context.manager.as_ref().unwrap().get_stream_configuration(reply);
                match chosen {
                    Ok(configuration) => {
                        self.configuration = Some(configuration);
                        self.stage = Stage::ReadingOrientation;
                    },
                    Err(_) => {
                        self.fail();
                    },
                }
            },
            Stage::ReadingOrientation => {
                let orientation = self.context.manager.as_ref().unwrap().camera_rotation(reply);
                match orientation {
                    Some(sensor_orientation_deg) => {
                        self.rotation = resolve_rotation(
                            sensor_orientation_deg,
                            self.device_rotation_deg,
                        );
                        self.stage = Stage::ClosingSelected;
                    },
                    None => {
                        self.fail();
                    },
                }
            },
            Stage::ClosingSelected => {
                self.context.metadata = None;
                self.stage = Stage::OpeningDevice;
            },
            _ => {
                let opened = self.context.manager.as_ref().unwrap().open_camera(reply);
                match opened {
                    Ok(device) => {
                        self.context.device = Some(device);
                        self.stage = Stage::CreatingReader;
                    },
                    Err(_) => {
                        self.fail();
                    },
                }
            },
        }
    }

    /// Takes a reply while the image reader and the outputs are made.
    fn advance_outputs(&mut self, reply: &NativeReply)
        requires
            old(self)@.wf(),
            old(self)@.stage.between(Stage::CreatingReader, Stage::AddingOutput),
        ensures
            final(self)@ =~~= old(self)@.after(*reply),
    {
        match self.stage {
            Stage::CreatingReader => {
                let created = self.context.manager.as_ref().unwrap().create_image_reader(reply);
                match created {
                    Ok(reader) => {
                        self.context.image_reader = Some(reader);
                        self.stage = Stage::GettingWindow;
                    },
                    Err(_) => {
                        self.fail();
                    },
                }
            },
            Stage::GettingWindow => {
                let got = self.context.image_reader.as_ref().unwrap().get_window(reply);
                match got {
                    Ok(window) => {
                        self.context.window = Some(window);
                        self.stage = Stage::CreatingTarget;
                    },
                    Err(_) => {
                        self.fail();
                    },
                }
            },
            Stage::CreatingTarget => {
                let created = self.context.window.as_ref().unwrap().create_target(reply);
                match created {
                    Ok(target) => {
                        self.context.target = Some(target);
                        self.stage = Stage::CreatingContainer;
                    },
                    Err(_) => {
                        self.fail();
                    },
                }
            },
            Stage::CreatingContainer => {
                let created = self.context.window.as_ref().unwrap().create_container(reply);
                match created {
                    Ok(container) => {
                        self.context.container = Some(container);
                        self.stage = Stage::CreatingOutput;
                    },
                    Err(_) => {
                        self.fail();
                    },
                }
            },
            Stage::CreatingOutput => {
                let created = self.context.window.as_ref().unwrap().create_output(reply);
                match created {
                    Ok(output) => {
                        self.context.output = Some(output);
                        self.stage = Stage::AddingOutput;
                    },
                    Err(_) => {
                        self.fail();
                    },
                }
            },
            _ => {
                let output = self.context.output.take().unwrap();
                let mut container = self.context.container.take().unwrap();
                let added = container.add_output(output, reply);
                self.context.container = Some(container);
                match added {
                    Ok(()) => {
                        self.stage = Stage::CreatingSession;
                    },
                    Err(output) => {
                        self.context.output = Some(output);
                        self.fail();
                    },
                }
            },
        }
    }

    /// Takes a reply while the session and its request are made.
    fn advance_session(&mut self, reply: &NativeReply)
        requires
            old(self)@.wf(),
            old(self)@.stage.between(Stage::CreatingSession, Stage::StartingRepeating),
        ensures
            final(self)@ =~~= old(self)@.after(*reply),
    {
        match self.stage {
            Stage::CreatingSession => {
                let container = self.context.container.take().unwrap();
                let mut device = self.context.device.take().unwrap();
                let created = device.create_session(container, reply);
                self.context.device = Some(device);
                match created {
                    Ok(session) => {
                        self.context.session = Some(session);
                        self.stage = Stage::CreatingRequest;
                    },
                    Err(container) => {
                        self.context.container = Some(container);
                        self.fail();
                    },
                }
            },
            Stage::CreatingRequest => {
                let created = self.context.device.as_ref().unwrap().create_request(reply);
                match created {
                    Ok(request) => {
                        self.context.request = Some(request);
                        self.stage = Stage::AddingTarget;
                    },
                    Err(_) => {
                        self.fail();
                    },
                }
            },
            Stage::AddingTarget => {
                let target = self.context.target.take().unwrap();
                let mut request = self.context.request.take().unwrap();
                let added = request.add_target(target, reply);
                self.context.request = Some(request);
                match added {
                    Ok(()) => {
                        self.stage = Stage::SettingListener;
                    },
                    Err(target) => {
                        self.context.target = Some(target);
                        self.fail();
                    },
                }
            },
            Stage::SettingListener => {
                let mut reader = self.context.image_reader.take().unwrap();
                let set = reader.add_listener(reply);
                self.context.image_reader = Some(reader);
                match set {
                    Ok(()) => {
                        self.stage = Stage::StartingRepeating;
                    },
                    Err(_) => {
                        self.fail();
                    },
                }
            },
            _ => {
                let request = self.context.request.take().unwrap();
                let mut session = self.context.session.take().unwrap();
                let started = session.start(request, reply);
                self.context.session = Some(session);
                match started {
                    Ok(()) => {
                        self.stage = Stage::Streaming;
                    },
                    Err(request) => {
                        self.context.request = Some(request);
                        self.fail();
                    },
                }
            },
        }
    }
}

impl Pipeline {
    /// Asks for capture to start. A pipeline that is streaming stays as it
    /// is and reports `Done`: no second graph is built. An idle pipeline
    /// without the permission starts nothing and asks for the permission; with
    /// it, the pipeline sets out to enumerate the cameras. A pipeline that is
    /// on its way stays on it.
    pub fn start_capture(&mut self, has_permission: bool, device_rotation_deg: i32) -> (step: Step)
        requires
            old(self)@.wf(),
        ensures
            final(self)@ == old(self)@.started(has_permission, device_rotation_deg),
            final(self)@.wf(),
            step == (if old(self)@.stage == Stage::Idle && !has_permission {
                Step::RequestPermission
            } else {
                final(self)@.pending_step()
            }),
    {
        match self.stage {
            Stage::Idle => {
                if !has_permission {
                    return Step::RequestPermission;
                }
                self.stage = Stage::CreatingManager;
                self.device_rotation_deg = device_rotation_deg;
                self.cursor = 0;
                self.matched = false;
                self.configuration = None;
                self.rotation = ImageRotation::Deg0;
                self.failure = None;
                assert(self@ =~~= old(self)@.started(has_permission, device_rotation_deg));
            },
            _ => {},
        }
        self.current_step()
    }

    /// Asks for capture to stop. An idle pipeline stays as it is and reports
    /// `Done`. A streaming pipeline hands its graph over to be given back. A
    /// pipeline that is on its way stays on it.
    pub fn stop_capture(&mut self) -> (step: Step)
        requires
            old(self)@.wf(),
        ensures
            final(self)@ == old(self)@.stopped(),
            final(self)@.wf(),
            step == (if old(self)@.stage == Stage::Idle {
                Step::Done
            } else {
                final(self)@.pending_step()
            }),
    {
        match self.stage {
            Stage::Idle => {
                return Step::Done;
            },
            Stage::Streaming => {
                proof {
                    lemma_reader_is_released(self@.context);
                    lemma_manager_is_released(self@.context);
                }
                self.tear_down(None);
            },
            _ => {},
        }
        self.current_step()
    }

    /// Enters the frame callback: says whether a frame may be acquired, and
    /// with which call. A frame is admitted only while the pipeline streams.
    pub fn begin_frame(&mut self) -> (call: Option<NativeCall>)
        requires
            old(self)@.wf(),
        ensures
            final(self)@ == old(self)@.frame_begun(),
            final(self)@.wf(),
            call == (if old(self)@.admits_frame() {
                Some(
                    NativeCall::AcquireLatestImage {
                        reader: old(self)@.context.image_reader.unwrap().reader,
                    },
                )
            } else {
                None
            }),
    {
        match self.stage {
            Stage::Streaming => {
                if self.in_flight < usize::MAX {
                    self.in_flight = self.in_flight + 1;
                    let reader = self.context.image_reader.as_ref().unwrap().reader;
                    assert(self@ =~~= old(self)@.frame_begun());
                    Some(NativeCall::AcquireLatestImage { reader })
                } else {
                    None
                }
            },
            _ => None,
        }
    }

    /// Leaves the frame callback: the frame, if one was acquired, has been
    /// given back. Says what to do next, which is to go on with a teardown
    /// that waited for this frame.
    pub fn end_frame(&mut self) -> (step: Step)
        requires
            old(self)@.wf(),
        ensures
            final(self)@ == old(self)@.frame_ended(),
            final(self)@.wf(),
            step == final(self)@.pending_step(),
    {
        if self.in_flight > 0 {
            self.in_flight = self.in_flight - 1;
            assert(self@ =~~= old(self)@.frame_ended());
            proof {
                if self@.stage == Stage::TearingDown && self@.in_flight > 0 {
                    let i = choose|i: int|
                        old(self)@.next <= i < old(self)@.pending.len() && #[trigger] old(
                            self,
                        )@.pending[i] is DeleteReader;
                    assert(self@.pending[i] is DeleteReader);
                }
            }
        }
        self.current_step()
    }
}

} // verus!
