use otp_scanner::metadata::{FacingPolicy, StreamConfiguration, FACING_BACK, FACING_FRONT, FORMAT_JPEG};
use otp_scanner::pipeline::{NativeCall, Phase, Pipeline, Stage, Step};
use otp_scanner::resources::{ReleaseCall, ResourceKind};
use otp_scanner::rotation::ImageRotation;
use otp_scanner::status::{CameraError, Handle, NativeReply};

/// A native layer that hands out handles in turn and counts what is created
/// and what is given back.
struct FakeNative {
    facings: Vec<i32>,
    configurations: Vec<i32>,
    sensor_orientation: i32,
    /// The position, among the calls that are not releases, of the call that fails.
    fail_at: Option<usize>,
    unlink_status: i32,
    next_handle: u64,
    answered: usize,
    calls: Vec<NativeCall>,
    created: Vec<(ResourceKind, u64)>,
    released: Vec<(ResourceKind, u64)>,
    unlinked: Vec<(u64, u64)>,
    reading: usize,
}

fn fake(facings: Vec<i32>) -> FakeNative {
    FakeNative {
        facings,
        configurations: vec![FORMAT_JPEG, 1920, 1080, 0, FORMAT_JPEG, 640, 480, 0, 32, 4000, 3000, 0],
        sensor_orientation: 90,
        fail_at: None,
        unlink_status: 0,
        next_handle: 100,
        answered: 0,
        calls: Vec::new(),
        created: Vec::new(),
        released: Vec::new(),
        unlinked: Vec::new(),
        reading: 0,
    }
}

fn kind_of(call: &ReleaseCall) -> Option<(ResourceKind, u64)> {
    match call {
        ReleaseCall::RemoveTarget { .. } | ReleaseCall::RemoveOutput { .. } => None,
        ReleaseCall::FreeTarget { target } => Some((ResourceKind::Target, target.raw)),
        ReleaseCall::FreeRequest { request } => Some((ResourceKind::Request, request.raw)),
        ReleaseCall::CloseSession { session } => Some((ResourceKind::Session, session.raw)),
        ReleaseCall::FreeOutput { output } => Some((ResourceKind::Output, output.raw)),
        ReleaseCall::FreeContainer { container } => Some((ResourceKind::Container, container.raw)),
        ReleaseCall::CloseDevice { device } => Some((ResourceKind::Device, device.raw)),
        ReleaseCall::DeleteReader { reader } => Some((ResourceKind::Reader, reader.raw)),
        ReleaseCall::DeleteManager { manager } => Some((ResourceKind::Manager, manager.raw)),
        ReleaseCall::DeleteIdList { list } => Some((ResourceKind::IdList, list.raw)),
        ReleaseCall::FreeMetadata { metadata } => Some((ResourceKind::Metadata, metadata.raw)),
        ReleaseCall::DeleteImage { image } => Some((ResourceKind::Image, image.raw)),
    }
}

impl FakeNative {
    fn grant(&mut self, kind: Option<ResourceKind>) -> NativeReply {
        let handle = self.next_handle;
        self.next_handle += 1;
        if let Some(kind) = kind {
            self.created.push((kind, handle));
        }
        NativeReply::of_handle(0, handle)
    }

    fn perform(&mut self, call: NativeCall) -> NativeReply {
        self.calls.push(call);
        if let NativeCall::Release(release) = call {
            return match kind_of(&release) {
                Some(freed) => {
                    assert!(self.created.contains(&freed), "{:?} was never created", freed);
                    assert!(!self.released.contains(&freed), "{:?} is given back twice", freed);
                    self.released.push(freed);
                    NativeReply::of_status(0)
                }
                None => {
                    match release {
                        ReleaseCall::RemoveTarget { request, target } => {
                            self.unlinked.push((request.raw, target.raw))
                        }
                        ReleaseCall::RemoveOutput { container, output } => {
                            self.unlinked.push((container.raw, output.raw))
                        }
                        _ => unreachable!(),
                    }
                    NativeReply::of_status(self.unlink_status)
                }
            };
        }
        let position = self.answered;
        self.answered += 1;
        if self.fail_at == Some(position) {
            return NativeReply::of_handle(-10000, 0);
        }
        match call {
            NativeCall::CreateManager => self.grant(Some(ResourceKind::Manager)),
            NativeCall::GetCameraIdList { .. } => {
                let mut reply = self.grant(Some(ResourceKind::IdList));
                reply.values = vec![self.facings.len() as i32];
                reply
            }
            NativeCall::GetCharacteristics { camera, .. } => {
                self.reading = camera;
                self.grant(Some(ResourceKind::Metadata))
            }
            NativeCall::ReadFacing { .. } => NativeReply::of_values(0, vec![self.facings[self.reading]]),
            NativeCall::ReadStreamConfigurations { .. } => {
                NativeReply::of_values(0, self.configurations.clone())
            }
            NativeCall::ReadSensorOrientation { .. } => {
                NativeReply::of_values(0, vec![self.sensor_orientation])
            }
            NativeCall::OpenCamera { .. } => self.grant(Some(ResourceKind::Device)),
            NativeCall::CreateImageReader { .. } => self.grant(Some(ResourceKind::Reader)),
            NativeCall::GetWindow { .. } => self.grant(None),
            NativeCall::CreateOutputTarget { .. } => self.grant(Some(ResourceKind::Target)),
            NativeCall::CreateOutputContainer => self.grant(Some(ResourceKind::Container)),
            NativeCall::CreateSessionOutput { .. } => self.grant(Some(ResourceKind::Output)),
            NativeCall::CreateSession { .. } => self.grant(Some(ResourceKind::Session)),
            NativeCall::CreateRequest { .. } => self.grant(Some(ResourceKind::Request)),
            NativeCall::AcquireLatestImage { .. } => self.grant(Some(ResourceKind::Image)),
            NativeCall::AddOutput { .. }
            | NativeCall::AddTarget { .. }
            | NativeCall::SetImageListener { .. }
            | NativeCall::SetRepeatingRequest { .. } => NativeReply::of_status(0),
            NativeCall::Release(_) => unreachable!(),
        }
    }

    fn live(&self) -> Vec<(ResourceKind, u64)> {
        let mut live = Vec::new();
        for created in &self.created {
            if !self.released.contains(created) {
                live.push(*created);
            }
        }
        live
    }
}

/// Makes the calls that the pipeline asks for until it asks for none.
fn drive(pipeline: &mut Pipeline, native: &mut FakeNative, first: Step) -> Step {
    let mut step = first;
    while let Step::Call(call) = step {
        let reply = native.perform(call);
        step = pipeline.advance(&reply);
    }
    step
}

fn start(pipeline: &mut Pipeline, native: &mut FakeNative) -> Step {
    let first = pipeline.start_capture(true, 0);
    drive(pipeline, native, first)
}

fn h(raw: u64) -> Handle {
    Handle { raw }
}

#[test]
fn start_walks_to_streaming() {
    let mut native = fake(vec![FACING_FRONT, FACING_BACK]);
    let mut pipeline = Pipeline::new(FacingPolicy::Back);
    assert_eq!(pipeline.phase(), Phase::Idle);
    assert_eq!(start(&mut pipeline, &mut native), Step::Done);
    assert_eq!(pipeline.phase(), Phase::Streaming);
    assert_eq!(pipeline.selected_camera(), 1);
    assert_eq!(pipeline.configuration(), Some(StreamConfiguration::new(FORMAT_JPEG, 640, 480)));
    assert_eq!(pipeline.rotation(), ImageRotation::Deg90);
    let expected = vec![
        NativeCall::CreateManager,
        NativeCall::GetCameraIdList { manager: h(100) },
        NativeCall::GetCharacteristics { manager: h(100), camera: 0 },
        NativeCall::ReadFacing { metadata: h(102) },
        NativeCall::Release(ReleaseCall::FreeMetadata { metadata: h(102) }),
        NativeCall::GetCharacteristics { manager: h(100), camera: 1 },
        NativeCall::ReadFacing { metadata: h(103) },
        NativeCall::Release(ReleaseCall::FreeMetadata { metadata: h(103) }),
        NativeCall::Release(ReleaseCall::DeleteIdList { list: h(101) }),
        NativeCall::GetCharacteristics { manager: h(100), camera: 1 },
        NativeCall::ReadStreamConfigurations { metadata: h(104) },
        NativeCall::ReadSensorOrientation { metadata: h(104) },
        NativeCall::Release(ReleaseCall::FreeMetadata { metadata: h(104) }),
        NativeCall::OpenCamera { manager: h(100), camera: 1 },
        NativeCall::CreateImageReader { width: 640, height: 480, format: FORMAT_JPEG, max_images: 2 },
        NativeCall::GetWindow { reader: h(106) },
        NativeCall::CreateOutputTarget { window: h(107) },
        NativeCall::CreateOutputContainer,
        NativeCall::CreateSessionOutput { window: h(107) },
        NativeCall::AddOutput { container: h(109), output: h(110) },
        NativeCall::CreateSession { device: h(105), container: h(109) },
        NativeCall::CreateRequest { device: h(105) },
        NativeCall::AddTarget { request: h(112), target: h(108) },
        NativeCall::SetImageListener { reader: h(106) },
        NativeCall::SetRepeatingRequest { session: h(111), request: h(112) },
    ];
    assert_eq!(native.calls, expected);
    assert_eq!(native.live().len(), 8);
}

#[test]
fn second_start_builds_no_second_graph() {
    let mut native = fake(vec![FACING_BACK]);
    let mut pipeline = Pipeline::new(FacingPolicy::Back);
    assert_eq!(start(&mut pipeline, &mut native), Step::Done);
    let calls = native.calls.len();
    let created = native.created.len();
    assert_eq!(pipeline.start_capture(true, 180), Step::Done);
    assert_eq!(pipeline.start_capture(false, 0), Step::Done);
    assert_eq!(pipeline.phase(), Phase::Streaming);
    assert_eq!(native.calls.len(), calls);
    assert_eq!(native.created.len(), created);
    assert_eq!(pipeline.device_rotation_deg(), 0);
}

#[test]
fn stopping_an_idle_pipeline_does_nothing() {
    let mut pipeline = Pipeline::new(FacingPolicy::Back);
    assert_eq!(pipeline.stop_capture(), Step::Done);
    assert_eq!(pipeline.phase(), Phase::Idle);
    assert_eq!(pipeline.stop_capture(), Step::Done);
    assert_eq!(pipeline.failure(), None);
}

#[test]
fn stopping_after_a_failed_start_does_not_error() {
    let mut native = fake(vec![FACING_FRONT]);
    let mut pipeline = Pipeline::new(FacingPolicy::Back);
    assert_eq!(start(&mut pipeline, &mut native), Step::Failed(CameraError::NoMatchingCamera));
    assert_eq!(pipeline.stop_capture(), Step::Done);
    assert_eq!(pipeline.phase(), Phase::Idle);
}

#[test]
fn without_permission_nothing_is_started() {
    let mut pipeline = Pipeline::new(FacingPolicy::Back);
    assert_eq!(pipeline.start_capture(false, 0), Step::RequestPermission);
    assert_eq!(pipeline.phase(), Phase::Idle);
    assert_eq!(pipeline.start_capture(true, 0), Step::Call(NativeCall::CreateManager));
    assert_eq!(pipeline.phase(), Phase::Enumerating);
}

#[test]
fn stop_gives_the_graph_back_in_order() {
    let mut native = fake(vec![FACING_BACK]);
    let mut pipeline = Pipeline::new(FacingPolicy::Back);
    assert_eq!(start(&mut pipeline, &mut native), Step::Done);
    let before = native.calls.len();
    let first = pipeline.stop_capture();
    assert_eq!(pipeline.phase(), Phase::TearingDown);
    assert_eq!(drive(&mut pipeline, &mut native, first), Step::Done);
    assert_eq!(pipeline.phase(), Phase::Idle);
    let made: Vec<NativeCall> = native.calls[before..].to_vec();
    // manager 100, list 101, characteristics 102 and 103, device 104, reader 105, window 106,
    // target 107, container 108, output 109, session 110, request 111
    let expected = vec![
        NativeCall::Release(ReleaseCall::RemoveTarget { request: h(111), target: h(107) }),
        NativeCall::Release(ReleaseCall::FreeTarget { target: h(107) }),
        NativeCall::Release(ReleaseCall::FreeRequest { request: h(111) }),
        NativeCall::Release(ReleaseCall::CloseSession { session: h(110) }),
        NativeCall::Release(ReleaseCall::RemoveOutput { container: h(108), output: h(109) }),
        NativeCall::Release(ReleaseCall::FreeOutput { output: h(109) }),
        NativeCall::Release(ReleaseCall::FreeContainer { container: h(108) }),
        NativeCall::Release(ReleaseCall::CloseDevice { device: h(104) }),
        NativeCall::Release(ReleaseCall::DeleteReader { reader: h(105) }),
        NativeCall::Release(ReleaseCall::DeleteManager { manager: h(100) }),
    ];
    assert_eq!(made, expected);
    assert!(native.live().is_empty());
    assert_eq!(native.created.len(), native.released.len());
}

#[test]
fn a_failed_unlink_does_not_stop_the_teardown() {
    let mut native = fake(vec![FACING_BACK]);
    native.unlink_status = -10001;
    let mut pipeline = Pipeline::new(FacingPolicy::Back);
    assert_eq!(start(&mut pipeline, &mut native), Step::Done);
    let first = pipeline.stop_capture();
    assert_eq!(drive(&mut pipeline, &mut native, first), Step::Done);
    assert_eq!(pipeline.phase(), Phase::Idle);
    assert_eq!(pipeline.failure(), None);
    assert!(native.live().is_empty());
    assert_eq!(native.unlinked.len(), 2);
}

#[test]
fn every_failure_gives_back_what_was_created() {
    let mut reference = fake(vec![FACING_FRONT, FACING_BACK]);
    let mut pipeline = Pipeline::new(FacingPolicy::Back);
    assert_eq!(start(&mut pipeline, &mut reference), Step::Done);
    let answered = reference.answered;
    assert_eq!(answered, 21);
    for fail_at in 0..answered {
        let mut native = fake(vec![FACING_FRONT, FACING_BACK]);
        native.fail_at = Some(fail_at);
        let mut pipeline = Pipeline::new(FacingPolicy::Back);
        let outcome = start(&mut pipeline, &mut native);
        let expected = if fail_at < 6 {
            CameraError::NoMatchingCamera
        } else if fail_at < 9 {
            CameraError::UnsupportedConfiguration
        } else if fail_at < 10 {
            CameraError::DeviceOpenFailed
        } else {
            CameraError::PipelineBuildFailed
        };
        assert_eq!(outcome, Step::Failed(expected), "failing call {}", fail_at);
        assert_eq!(pipeline.phase(), Phase::Idle);
        assert_eq!(pipeline.failure(), Some(expected));
        assert_eq!(native.released.len(), native.created.len(), "failing call {}", fail_at);
        assert!(native.live().is_empty(), "failing call {}", fail_at);
        for (parent, child) in &native.unlinked {
            let unlink = native
                .calls
                .iter()
                .position(|c| match c {
                    NativeCall::Release(ReleaseCall::RemoveTarget { request, target }) => {
                        request.raw == *parent && target.raw == *child
                    }
                    NativeCall::Release(ReleaseCall::RemoveOutput { container, output }) => {
                        container.raw == *parent && output.raw == *child
                    }
                    _ => false,
                })
                .unwrap();
            for (at, call) in native.calls.iter().enumerate() {
                if let NativeCall::Release(release) = call {
                    if let Some((_, freed)) = kind_of(release) {
                        if freed == *parent || freed == *child {
                            assert!(unlink < at, "freed before being unlinked");
                        }
                    }
                }
            }
        }
    }
}

#[test]
fn a_build_that_fails_after_the_reader_gives_back_three_handles() {
    // Manager, device and reader exist when the surface cannot be got.
    let mut native = fake(vec![FACING_BACK]);
    native.fail_at = Some(9);
    let mut pipeline = Pipeline::new(FacingPolicy::Back);
    assert_eq!(start(&mut pipeline, &mut native), Step::Failed(CameraError::PipelineBuildFailed));
    let tail: Vec<NativeCall> = native.calls[native.calls.len() - 3..].to_vec();
    assert_eq!(
        tail,
        vec![
            NativeCall::Release(ReleaseCall::CloseDevice { device: h(104) }),
            NativeCall::Release(ReleaseCall::DeleteReader { reader: h(105) }),
            NativeCall::Release(ReleaseCall::DeleteManager { manager: h(100) }),
        ]
    );
    assert_eq!(native.created.len(), 6);
    assert_eq!(native.released.len(), 6);
}

#[test]
fn a_target_that_was_not_attached_is_freed_without_unlinking() {
    let mut native = fake(vec![FACING_BACK]);
    native.fail_at = Some(16);
    let mut pipeline = Pipeline::new(FacingPolicy::Back);
    assert_eq!(start(&mut pipeline, &mut native), Step::Failed(CameraError::PipelineBuildFailed));
    assert!(matches!(native.calls[native.answered + 3 - 1], NativeCall::AddTarget { .. }));
    assert!(!native
        .calls
        .iter()
        .any(|c| matches!(c, NativeCall::Release(ReleaseCall::RemoveTarget { .. }))));
    assert!(native
        .calls
        .iter()
        .any(|c| matches!(c, NativeCall::Release(ReleaseCall::RemoveOutput { .. }))));
    assert!(native.live().is_empty());
}

#[test]
fn no_camera_at_all() {
    let mut native = fake(vec![]);
    let mut pipeline = Pipeline::new(FacingPolicy::Back);
    assert_eq!(start(&mut pipeline, &mut native), Step::Failed(CameraError::NoMatchingCamera));
    assert!(native.live().is_empty());
    assert_eq!(native.created.len(), 2);
}

#[test]
fn a_manager_that_cannot_be_created_leaves_nothing_to_give_back() {
    let mut native = fake(vec![FACING_BACK]);
    native.fail_at = Some(0);
    let mut pipeline = Pipeline::new(FacingPolicy::Back);
    assert_eq!(start(&mut pipeline, &mut native), Step::Failed(CameraError::NoMatchingCamera));
    assert_eq!(native.calls, vec![NativeCall::CreateManager]);
    assert_eq!(pipeline.phase(), Phase::Idle);
}

#[test]
fn unsupported_format_aborts_the_start() {
    let mut native = fake(vec![FACING_BACK]);
    native.configurations = vec![32, 4000, 3000, 0];
    let mut pipeline = Pipeline::new(FacingPolicy::Back);
    assert_eq!(
        start(&mut pipeline, &mut native),
        Step::Failed(CameraError::UnsupportedConfiguration)
    );
    assert!(native.live().is_empty());
    assert_eq!(pipeline.configuration(), None);
}

#[test]
fn a_start_after_a_failure_starts_afresh() {
    let mut native = fake(vec![FACING_FRONT]);
    let mut pipeline = Pipeline::new(FacingPolicy::Back);
    assert_eq!(start(&mut pipeline, &mut native), Step::Failed(CameraError::NoMatchingCamera));
    native.facings = vec![FACING_BACK];
    assert_eq!(start(&mut pipeline, &mut native), Step::Done);
    assert_eq!(pipeline.failure(), None);
    assert_eq!(pipeline.phase(), Phase::Streaming);
}

#[test]
fn rotation_is_resolved_from_sensor_and_display() {
    let mut native = fake(vec![FACING_BACK]);
    native.sensor_orientation = 0;
    let mut pipeline = Pipeline::new(FacingPolicy::Back);
    let first = pipeline.start_capture(true, 270);
    assert_eq!(drive(&mut pipeline, &mut native, first), Step::Done);
    assert_eq!(pipeline.rotation(), ImageRotation::Deg90);
}

#[test]
fn frames_are_admitted_only_while_streaming() {
    let mut native = fake(vec![FACING_BACK]);
    let mut pipeline = Pipeline::new(FacingPolicy::Back);
    assert_eq!(pipeline.begin_frame(), None);
    assert_eq!(pipeline.in_flight(), 0);
    assert_eq!(start(&mut pipeline, &mut native), Step::Done);
    assert_eq!(pipeline.begin_frame(), Some(NativeCall::AcquireLatestImage { reader: h(105) }));
    assert_eq!(pipeline.in_flight(), 1);
    assert_eq!(pipeline.end_frame(), Step::Done);
    assert_eq!(pipeline.in_flight(), 0);
    let first = pipeline.stop_capture();
    assert_eq!(drive(&mut pipeline, &mut native, first), Step::Done);
    assert_eq!(pipeline.begin_frame(), None);
}

#[test]
fn the_reader_is_not_deleted_under_a_frame() {
    let mut native = fake(vec![FACING_BACK]);
    let mut pipeline = Pipeline::new(FacingPolicy::Back);
    assert_eq!(start(&mut pipeline, &mut native), Step::Done);
    assert!(pipeline.begin_frame().is_some());
    assert!(pipeline.begin_frame().is_some());
    let first = pipeline.stop_capture();
    assert_eq!(drive(&mut pipeline, &mut native, first), Step::AwaitFrames);
    assert_eq!(pipeline.stage(), Stage::TearingDown);
    assert!(native.live().contains(&(ResourceKind::Reader, 105)));
    assert_eq!(pipeline.begin_frame(), None);
    // A reply that arrives while the teardown waits changes nothing.
    assert_eq!(pipeline.advance(&NativeReply::of_status(0)), Step::AwaitFrames);
    assert_eq!(pipeline.end_frame(), Step::AwaitFrames);
    let next = pipeline.end_frame();
    assert_eq!(next, Step::Call(NativeCall::Release(ReleaseCall::DeleteReader { reader: h(105) })));
    assert_eq!(drive(&mut pipeline, &mut native, next), Step::Done);
    assert!(native.live().is_empty());
    assert_eq!(pipeline.phase(), Phase::Idle);
}

#[test]
fn end_of_a_frame_that_never_began_changes_nothing() {
    let mut pipeline = Pipeline::new(FacingPolicy::Back);
    assert_eq!(pipeline.end_frame(), Step::Done);
    assert_eq!(pipeline.in_flight(), 0);
}

#[test]
fn requests_on_the_way_leave_the_pipeline_on_its_way() {
    let mut pipeline = Pipeline::new(FacingPolicy::Back);
    assert_eq!(pipeline.start_capture(true, 0), Step::Call(NativeCall::CreateManager));
    assert_eq!(pipeline.start_capture(true, 90), Step::Call(NativeCall::CreateManager));
    assert_eq!(pipeline.stop_capture(), Step::Call(NativeCall::CreateManager));
    assert_eq!(pipeline.device_rotation_deg(), 0);
    assert_eq!(pipeline.stage(), Stage::CreatingManager);
}

#[test]
fn a_session_that_cannot_be_created_gives_the_container_back_once() {
    let mut native = fake(vec![FACING_BACK]);
    native.fail_at = Some(14);
    let mut pipeline = Pipeline::new(FacingPolicy::Back);
    assert_eq!(start(&mut pipeline, &mut native), Step::Failed(CameraError::PipelineBuildFailed));
    let tail: Vec<NativeCall> = native.calls[native.calls.len() - 8..].to_vec();
    assert_eq!(
        tail,
        vec![
            NativeCall::CreateSession { device: h(104), container: h(108) },
            NativeCall::Release(ReleaseCall::RemoveOutput { container: h(108), output: h(109) }),
            NativeCall::Release(ReleaseCall::FreeOutput { output: h(109) }),
            NativeCall::Release(ReleaseCall::FreeContainer { container: h(108) }),
            NativeCall::Release(ReleaseCall::CloseDevice { device: h(104) }),
            NativeCall::Release(ReleaseCall::FreeTarget { target: h(107) }),
            NativeCall::Release(ReleaseCall::DeleteReader { reader: h(105) }),
            NativeCall::Release(ReleaseCall::DeleteManager { manager: h(100) }),
        ]
    );
    assert!(!native
        .calls
        .iter()
        .any(|c| matches!(c, NativeCall::Release(ReleaseCall::CloseSession { .. }))));
    assert!(native.live().is_empty());
}

#[test]
fn a_request_that_cannot_be_repeated_is_given_back_once() {
    let mut native = fake(vec![FACING_BACK]);
    native.fail_at = Some(18);
    let mut pipeline = Pipeline::new(FacingPolicy::Back);
    assert_eq!(start(&mut pipeline, &mut native), Step::Failed(CameraError::PipelineBuildFailed));
    let tail: Vec<NativeCall> = native.calls[native.calls.len() - 11..].to_vec();
    assert_eq!(
        tail,
        vec![
            NativeCall::SetRepeatingRequest { session: h(110), request: h(111) },
            NativeCall::Release(ReleaseCall::RemoveTarget { request: h(111), target: h(107) }),
            NativeCall::Release(ReleaseCall::FreeTarget { target: h(107) }),
            NativeCall::Release(ReleaseCall::FreeRequest { request: h(111) }),
            NativeCall::Release(ReleaseCall::CloseSession { session: h(110) }),
            NativeCall::Release(ReleaseCall::RemoveOutput { container: h(108), output: h(109) }),
            NativeCall::Release(ReleaseCall::FreeOutput { output: h(109) }),
            NativeCall::Release(ReleaseCall::FreeContainer { container: h(108) }),
            NativeCall::Release(ReleaseCall::CloseDevice { device: h(104) }),
            NativeCall::Release(ReleaseCall::DeleteReader { reader: h(105) }),
            NativeCall::Release(ReleaseCall::DeleteManager { manager: h(100) }),
        ]
    );
    assert!(native.live().is_empty());
}
