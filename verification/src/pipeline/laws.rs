//! What holds of every pipeline, whatever happens to it.

use vstd::prelude::*;
use crate::pipeline::model::{Event, NativeCall, Phase, PipelineView, Stage, Step, handed_over};
use crate::resources::{
    CameraContext, CameraDevice, CameraManager, CaptureRequest, CaptureSession, ImageReader,
    NativeWindow, OutputContainer, OutputTarget, ReleaseCall, Resource, SessionOutput, freed,
    lemma_complete_graph_release_order, lemma_context_gives_back_all, lemma_empty_context,
    lemma_freed_of_concat, lemma_freed_of_one, lemma_manager_is_released,
    lemma_reader_is_released, lemma_resources_are_counted,
};
use crate::status::{CameraError, NativeReply};

verus! {

/// Every reply leaves the invariant of the pipeline in place.
pub proof fn lemma_after_keeps_wf(v: PipelineView, reply: NativeReply)
    requires
        v.wf(),
    ensures
        v.after(reply).wf(),
{
    let w = v.after(reply);
    if v.stage == Stage::TearingDown {
        if !v.awaits_frames() && v.in_flight > 0 {
            let i = choose|i: int|
                v.next <= i < v.pending.len() && #[trigger] v.pending[i] is DeleteReader;
            assert(i != v.next);
        }
    } else if w.stage == Stage::TearingDown || (w.stage == Stage::Idle && v.stage != Stage::Idle) {
        lemma_torn_down_is_wf(v, reply);
    }
}

/// A failure leaves the invariant of the pipeline in place.
proof fn lemma_torn_down_is_wf(v: PipelineView, reply: NativeReply)
    requires
        v.wf(),
        v.stage.is_starting(),
        v.after(reply).stage == Stage::TearingDown || v.after(reply).stage == Stage::Idle,
    ensures
        v.after(reply).wf(),
{
    let w = v.after(reply);
    lemma_empty_context();
    if v.stage != Stage::CreatingManager {
        lemma_manager_is_released(handed_over(v, reply));
    }
}

/// Every event leaves the invariant of the pipeline in place.
pub proof fn lemma_event_keeps_wf(v: PipelineView, event: Event)
    requires
        v.wf(),
    ensures
        v.on(event).wf(),
{
    match event {
        Event::Reply(reply) => {
            lemma_after_keeps_wf(v, reply);
        },
        Event::Stop => {
            if v.stage == Stage::Streaming {
                lemma_reader_is_released(v.context);
                lemma_manager_is_released(v.context);
            }
        },
        Event::FrameEnd => {
            let w = v.frame_ended();
            if w.stage == Stage::TearingDown && w.in_flight > 0 {
                let i = choose|i: int|
                    v.next <= i < v.pending.len() && #[trigger] v.pending[i] is DeleteReader;
                assert(w.pending[i] is DeleteReader);
            }
        },
        _ => {},
    }
}

/// The invariant holds in every state that a pipeline can reach.
pub proof fn lemma_run_keeps_wf(v: PipelineView, events: Seq<Event>)
    requires
        v.wf(),
    ensures
        v.run(events).wf(),
    decreases events.len(),
{
    if events.len() > 0 {
        lemma_run_keeps_wf(v, events.drop_last());
        lemma_event_keeps_wf(v.run(events.drop_last()), events.last());
    }
}

/// Starting a pipeline that is streaming changes nothing and takes no call:
/// no second graph is built.
pub proof fn lemma_start_while_streaming_is_idle(
    v: PipelineView,
    has_permission: bool,
    device_rotation_deg: i32,
)
    requires
        v.stage == Stage::Streaming,
    ensures
        v.started(has_permission, device_rotation_deg) == v,
        v.started(has_permission, device_rotation_deg).pending_step() == Step::Done,
        v.started(has_permission, device_rotation_deg).ledger() == v.ledger(),
{
}

/// Stopping a pipeline that is idle changes nothing and takes no call.
pub proof fn lemma_stop_while_idle_is_idle(v: PipelineView)
    requires
        v.wf(),
        v.stage == Stage::Idle,
    ensures
        v.stopped() == v,
        v.ledger() == Seq::<Resource>::empty(),
{
    lemma_idle_holds_nothing(v);
}

/// An idle pipeline holds no handle.
pub proof fn lemma_idle_holds_nothing(v: PipelineView)
    requires
        v.wf(),
        v.stage == Stage::Idle,
    ensures
        v.context == CameraContext::empty(),
        v.ledger() == Seq::<Resource>::empty(),
{
    lemma_empty_context();
    assert(v.context == CameraContext::empty());
}

/// While frames are being processed the image reader is live: the pipeline
/// is streaming, or it is tearing down and has not come to delete the reader;
/// and it never asks for the reader to be deleted.
pub proof fn lemma_reader_outlives_frames(v: PipelineView)
    requires
        v.wf(),
        v.in_flight > 0,
    ensures
        v.stage == Stage::Streaming || v.stage == Stage::TearingDown,
        !(v.pending_step() matches Step::Call(NativeCall::Release(call)) && call is DeleteReader),
        v.stage == Stage::TearingDown ==> exists|i: int|
            v.next <= i < v.pending.len() && #[trigger] v.pending[i] is DeleteReader,
{
}

/// A reply moves a pipeline within its phase, on to the next phase, or, on
/// a failure, to the teardown (or straight to idle when there is nothing to
/// give back) with the error of the phase it was in.
pub proof fn lemma_transitions_follow_the_phases(v: PipelineView, reply: NativeReply)
    requires
        v.wf(),
    ensures
        ({
            let w = v.after(reply);
            let from = v.stage.phase_of();
            let to = w.stage.phase_of();
            match from {
                Phase::Idle => w == v,
                Phase::Streaming => w == v,
                Phase::TearingDown => to == Phase::TearingDown || to == Phase::Idle,
                Phase::Enumerating => to == Phase::Enumerating || to == Phase::ConfiguringStream
                    || ((to == Phase::TearingDown || to == Phase::Idle) && w.failure == Some(
                    CameraError::NoMatchingCamera,
                )),
                Phase::ConfiguringStream => to == Phase::ConfiguringStream || to
                    == Phase::OpeningDevice || (to == Phase::TearingDown && w.failure == Some(
                    CameraError::UnsupportedConfiguration,
                )),
                Phase::OpeningDevice => to == Phase::BuildingGraph || (to == Phase::TearingDown
                    && w.failure == Some(CameraError::DeviceOpenFailed)),
                Phase::BuildingGraph => to == Phase::BuildingGraph || to == Phase::Streaming || (to
                    == Phase::TearingDown && w.failure == Some(CameraError::PipelineBuildFailed)),
            }
        }),
{
    let w = v.after(reply);
    if v.stage.is_starting() && v.stage != Stage::CreatingManager && (w.stage
        == Stage::TearingDown || w.stage == Stage::Idle) {
        lemma_torn_down_is_wf(v, reply);
        if w.stage == Stage::Idle {
            lemma_manager_is_released(handed_over(v, reply));
        }
    }
}

/// What is handed over to a teardown is what was live.
proof fn lemma_torn_down_ledger(v: PipelineView, failure: Option<CameraError>)
    ensures
        v.torn_down(failure).ledger() == v.context.resources(),
{
    let w = v.torn_down(failure);
    lemma_context_gives_back_all(v.context);
    if w.stage == Stage::TearingDown {
        assert(w.pending.skip(0) =~= w.pending);
    } else {
        assert(v.context.releases() =~= Seq::<ReleaseCall>::empty());
        assert(freed(Seq::<ReleaseCall>::empty()) =~= Seq::<Resource>::empty()) by {
            reveal_with_fuel(freed, 1);
        }
        lemma_empty_context();
    }
}

/// What is live before and after one call of a teardown.
proof fn lemma_teardown_step_ledger(v: PipelineView)
    requires
        v.wf(),
        v.stage == Stage::TearingDown,
    ensures
        freed(v.pending.skip(v.next)) == (match v.pending[v.next].frees() {
            Some(r) => seq![r],
            None => Seq::<Resource>::empty(),
        }) + freed(v.pending.skip(v.next + 1)),
{
    let head = seq![v.pending[v.next]];
    let tail = v.pending.skip(v.next + 1);
    assert(v.pending.skip(v.next) =~= head + tail);
    lemma_freed_of_one(v.pending[v.next]);
    lemma_freed_of_concat(head, tail);
}

/// The handles that are live change by exactly what an event creates and
/// what the call behind it gave back.
pub proof fn lemma_event_balance(v: PipelineView, event: Event)
    requires
        v.wf(),
    ensures
        v.on(event).ledger().len() + v.released_on(event) == v.ledger().len() + v.created_on(
            event,
        ),
{
    let w = v.on(event);
    match event {
        Event::Stop => {
            lemma_torn_down_ledger(v, None);
        },
        Event::Reply(reply) => {
            if v.stage == Stage::TearingDown {
                lemma_teardown_step_ledger(v);
                if w.stage == Stage::Idle {
                    assert(v.pending.skip(v.next + 1) =~= Seq::<ReleaseCall>::empty());
                    assert(freed(Seq::<ReleaseCall>::empty()) =~= Seq::<Resource>::empty()) by {
                        reveal_with_fuel(freed, 1);
                    }
                    lemma_empty_context();
                }
            } else if v.stage.is_starting() {
                lemma_reply_balance(v, reply);
            }
        },
        _ => {},
    }
}

/// The balance of one reply on the way from idle to streaming.
proof fn lemma_reply_balance(v: PipelineView, reply: NativeReply)
    requires
        v.wf(),
        v.stage.is_starting(),
    ensures
        v.after(reply).ledger().len() + v.released_on(Event::Reply(reply)) == v.ledger().len()
            + v.created_on(Event::Reply(reply)),
{
    let w = v.after(reply);
    lemma_resources_are_counted(v.context);
    if w.stage == Stage::TearingDown || w.stage == Stage::Idle {
        let handed = handed_over(v, reply);
        let x = PipelineView { context: handed, cursor: w.cursor, matched: w.matched, ..v };
        lemma_torn_down_ledger(x, Some(v.stage.error_of()));
        assert(w =~~= x.torn_down(Some(v.stage.error_of())));
        lemma_resources_are_counted(handed);
        lemma_failed_count(v, reply);
    } else {
        lemma_resources_are_counted(w.context);
        lemma_moved_count(v, reply);
    }
}

/// The count of live handles after a reply that ends the start.
proof fn lemma_failed_count(v: PipelineView, reply: NativeReply)
    requires
        v.wf(),
        v.stage.is_starting(),
        v.after(reply).stage == Stage::TearingDown || v.after(reply).stage == Stage::Idle,
    ensures
        handed_over(v, reply).live_count() + v.released_on(Event::Reply(reply))
            == v.context.live_count() + v.created_on(Event::Reply(reply)),
{
}

/// The count of live handles after a reply that takes the start further.
proof fn lemma_moved_count(v: PipelineView, reply: NativeReply)
    requires
        v.wf(),
        v.stage.is_starting(),
        !(v.after(reply).stage == Stage::TearingDown || v.after(reply).stage == Stage::Idle),
    ensures
        v.after(reply).context.live_count() + v.released_on(Event::Reply(reply))
            == v.context.live_count() + v.created_on(Event::Reply(reply)),
{
}

/// Over any sequence of events, what is live at the end is what was live at
/// the start, plus what was created, less what was given back.
pub proof fn lemma_run_balance(v: PipelineView, events: Seq<Event>)
    requires
        v.wf(),
    ensures
        v.run(events).wf(),
        v.run(events).ledger().len() + v.released_in(events) == v.ledger().len() + v.created_in(
            events,
        ),
    decreases events.len(),
{
    if events.len() > 0 {
        lemma_run_balance(v, events.drop_last());
        lemma_event_keeps_wf(v.run(events.drop_last()), events.last());
        lemma_event_balance(v.run(events.drop_last()), events.last());
    }
}

/// Whatever happens between two moments at which a pipeline is idle, and
/// wherever a start fails, as many handles are given back as were created:
/// none leaks and none is given back twice.
pub proof fn lemma_idle_to_idle_gives_back_all(v: PipelineView, events: Seq<Event>)
    requires
        v.wf(),
        v.stage == Stage::Idle,
        v.run(events).stage == Stage::Idle,
    ensures
        v.released_in(events) == v.created_in(events),
{
    lemma_run_balance(v, events);
    lemma_idle_holds_nothing(v);
    lemma_idle_holds_nothing(v.run(events));
}

/// A call that gives a handle back names a handle that is live: the first
/// of those still to be given back.
pub proof fn lemma_release_names_live_handle(v: PipelineView)
    requires
        v.wf(),
        v.stage == Stage::TearingDown,
        v.released_by_pending() is Some,
    ensures
        v.ledger().len() > 0,
        v.ledger()[0] == v.released_by_pending().unwrap(),
{
    lemma_teardown_step_ledger(v);
}

/// The stream configuration and the rotation are decided once: from the
/// moment the device is asked for until the pipeline is stopped or fails,
/// no event changes them.
pub proof fn lemma_decided_once(v: PipelineView, event: Event)
    requires
        v.wf(),
        v.stage.between(Stage::OpeningDevice, Stage::Streaming),
        v.on(event).stage.between(Stage::OpeningDevice, Stage::Streaming),
    ensures
        v.on(event).configuration == v.configuration,
        v.on(event).rotation == v.rotation,
        v.on(event).cursor == v.cursor,
{
}

/// Stopping a pipeline that streams gives its graph back in this order: the
/// target is detached from the request and both are freed, the session is
/// closed, the output is taken out of its container and both are freed, the
/// device is closed, the image reader is deleted, and the manager is deleted
/// last.
pub proof fn lemma_stop_gives_back_in_order(v: PipelineView)
    requires
        v.wf(),
        v.stage == Stage::Streaming,
    ensures
        v.stopped().stage == Stage::TearingDown,
        v.stopped().next == 0,
        v.stopped().failure is None,
        v.stopped().pending == ({
            let c = v.context;
            let session = c.session.unwrap();
            let request = session.request.unwrap();
            let device = c.device.unwrap();
            let container = device.container.unwrap();
            seq![
                ReleaseCall::RemoveTarget {
                    request: request.request,
                    target: request.target.unwrap().target,
                },
                ReleaseCall::FreeTarget { target: request.target.unwrap().target },
                ReleaseCall::FreeRequest { request: request.request },
                ReleaseCall::CloseSession { session: session.session },
                ReleaseCall::RemoveOutput {
                    container: container.container,
                    output: container.output.unwrap().output,
                },
                ReleaseCall::FreeOutput { output: container.output.unwrap().output },
                ReleaseCall::FreeContainer { container: container.container },
                ReleaseCall::CloseDevice { device: device.device },
                ReleaseCall::DeleteReader { reader: c.image_reader.unwrap().reader },
                ReleaseCall::DeleteManager { manager: c.manager.unwrap().manager },
            ]
        }),
{
    let c = v.context;
    let session = c.session.unwrap();
    let request = session.request.unwrap();
    let device = c.device.unwrap();
    let container = device.container.unwrap();
    lemma_complete_graph_release_order(
        c.manager.unwrap().manager,
        device.device,
        c.image_reader.unwrap().reader,
        request.target.unwrap().target,
        container.container,
        container.output.unwrap().output,
        session.session,
        request.request,
        c.window.unwrap().window,
    );
    let complete = CameraContext {
        session: Some(
            CaptureSession {
                session: session.session,
                request: Some(
                    CaptureRequest {
                        request: request.request,
                        target: Some(OutputTarget { target: request.target.unwrap().target }),
                    },
                ),
            },
        ),
        device: Some(
            CameraDevice {
                device: device.device,
                container: Some(
                    OutputContainer {
                        container: container.container,
                        output: Some(SessionOutput { output: container.output.unwrap().output }),
                    },
                ),
            },
        ),
        window: Some(NativeWindow { window: c.window.unwrap().window }),
        image_reader: Some(ImageReader { reader: c.image_reader.unwrap().reader, listening: true }),
        manager: Some(CameraManager { manager: c.manager.unwrap().manager }),
        ..CameraContext::empty()
    };
    assert(c == complete);
}

/// The camera that a pipeline selects is the first of the list whose lens
/// faces the wanted way, and a search that ends without a camera has found
/// that none does: as long as the replies say of the cameras what `facings`
/// says, the search goes by the order of the list.
pub proof fn lemma_first_match_is_selected(v: PipelineView, reply: NativeReply, facings: Seq<i32>)
    requires
        v.wf(),
        v.searched_in_order(facings),
        v.is_true_of(reply, facings),
    ensures
        v.after(reply).searched_in_order(facings),
        v.stage == Stage::ClosingCharacteristics && v.after(reply).stage == Stage::TearingDown
            ==> forall|j: int| 0 <= j < facings.len() ==> facings[j] != v.policy.facing(),
{
    let w = v.after(reply);
    let wanted = v.policy.facing();
    if v.stage == Stage::ClosingCharacteristics {
        if !v.matched {
            assert forall|j: int| 0 <= j < v.cursor + 1 implies facings[j] != wanted by {
                if j < v.cursor {
                } else {
                    assert(j == v.cursor);
                }
            }
        }
        if w.stage == Stage::TearingDown {
            lemma_manager_is_released(handed_over(v, reply));
        }
    }
}

/// A teardown runs to its end whatever the calls report: with no frame in
/// flight, each reply takes it one call further, and the reply to the last
/// call leaves the pipeline idle, with the outcome of the start as it was.
pub proof fn lemma_teardown_runs_to_idle(v: PipelineView, replies: Seq<Event>)
    requires
        v.wf(),
        v.stage == Stage::TearingDown,
        v.in_flight == 0,
        replies.len() <= v.pending.len() - v.next,
        forall|i: int| 0 <= i < replies.len() ==> #[trigger] replies[i] is Reply,
    ensures
        v.run(replies).in_flight == 0,
        v.run(replies).failure == v.failure,
        v.run(replies).pending == v.pending,
        v.run(replies).next == v.next + replies.len(),
        v.run(replies).stage == (if replies.len() == v.pending.len() - v.next {
            Stage::Idle
        } else {
            Stage::TearingDown
        }),
    decreases replies.len(),
{
    if replies.len() > 0 {
        lemma_teardown_runs_to_idle(v, replies.drop_last());
        assert(replies.last() is Reply);
    }
}

/// When the repeating request cannot be started, everything is given back,
/// each handle once and in the order of a stop: the request that came back
/// has its target detached and both are freed, then the session is closed
/// without ever having owned the request, the output is taken out of its
/// container and both are freed, the device is closed, the image reader is
/// deleted, and the manager is deleted last. The start ends with
/// `PipelineBuildFailed`.
pub proof fn lemma_failed_start_gives_back_in_order(v: PipelineView, reply: NativeReply)
    requires
        v.wf(),
        v.stage == Stage::StartingRepeating,
        !reply.succeeded(),
    ensures
        v.after(reply).stage == Stage::TearingDown,
        v.after(reply).next == 0,
        v.after(reply).failure == Some(CameraError::PipelineBuildFailed),
        v.after(reply).context == CameraContext::empty(),
        v.after(reply).pending == ({
            let c = v.context;
            let request = c.request.unwrap();
            let device = c.device.unwrap();
            let container = device.container.unwrap();
            seq![
                ReleaseCall::RemoveTarget {
                    request: request.request,
                    target: request.target.unwrap().target,
                },
                ReleaseCall::FreeTarget { target: request.target.unwrap().target },
                ReleaseCall::FreeRequest { request: request.request },
                ReleaseCall::CloseSession { session: c.session.unwrap().session },
                ReleaseCall::RemoveOutput {
                    container: container.container,
                    output: container.output.unwrap().output,
                },
                ReleaseCall::FreeOutput { output: container.output.unwrap().output },
                ReleaseCall::FreeContainer { container: container.container },
                ReleaseCall::CloseDevice { device: device.device },
                ReleaseCall::DeleteReader { reader: c.image_reader.unwrap().reader },
                ReleaseCall::DeleteManager { manager: c.manager.unwrap().manager },
            ]
        }),
{
    reveal(CameraContext::releases);
    let c = v.context;
    let request = c.request.unwrap();
    let device = c.device.unwrap();
    let container = device.container.unwrap();
    assert(c.releases() =~= seq![
        ReleaseCall::RemoveTarget {
            request: request.request,
            target: request.target.unwrap().target,
        },
        ReleaseCall::FreeTarget { target: request.target.unwrap().target },
        ReleaseCall::FreeRequest { request: request.request },
        ReleaseCall::CloseSession { session: c.session.unwrap().session },
        ReleaseCall::RemoveOutput {
            container: container.container,
            output: container.output.unwrap().output,
        },
        ReleaseCall::FreeOutput { output: container.output.unwrap().output },
        ReleaseCall::FreeContainer { container: container.container },
        ReleaseCall::CloseDevice { device: device.device },
        ReleaseCall::DeleteReader { reader: c.image_reader.unwrap().reader },
        ReleaseCall::DeleteManager { manager: c.manager.unwrap().manager },
    ]);
}

/// When the session cannot be created, the device is as it was and the
/// container, which came back, is given back once: its output is taken out
/// and freed, then the container is freed. No session is closed. After that
/// the device is closed, the target is freed, the image reader is deleted,
/// and the manager is deleted last. The start ends with
/// `PipelineBuildFailed`.
pub proof fn lemma_failed_session_gives_back_in_order(v: PipelineView, reply: NativeReply)
    requires
        v.wf(),
        v.stage == Stage::CreatingSession,
        reply.granted() is None,
    ensures
        v.after(reply).stage == Stage::TearingDown,
        v.after(reply).next == 0,
        v.after(reply).failure == Some(CameraError::PipelineBuildFailed),
        v.after(reply).context == CameraContext::empty(),
        v.after(reply).pending == ({
            let c = v.context;
            let container = c.container.unwrap();
            seq![
                ReleaseCall::RemoveOutput {
                    container: container.container,
                    output: container.output.unwrap().output,
                },
                ReleaseCall::FreeOutput { output: container.output.unwrap().output },
                ReleaseCall::FreeContainer { container: container.container },
                ReleaseCall::CloseDevice { device: c.device.unwrap().device },
                ReleaseCall::FreeTarget { target: c.target.unwrap().target },
                ReleaseCall::DeleteReader { reader: c.image_reader.unwrap().reader },
                ReleaseCall::DeleteManager { manager: c.manager.unwrap().manager },
            ]
        }),
{
    reveal(CameraContext::releases);
    let c = v.context;
    let container = c.container.unwrap();
    assert(c.releases() =~= seq![
        ReleaseCall::RemoveOutput {
            container: container.container,
            output: container.output.unwrap().output,
        },
        ReleaseCall::FreeOutput { output: container.output.unwrap().output },
        ReleaseCall::FreeContainer { container: container.container },
        ReleaseCall::CloseDevice { device: c.device.unwrap().device },
        ReleaseCall::FreeTarget { target: c.target.unwrap().target },
        ReleaseCall::DeleteReader { reader: c.image_reader.unwrap().reader },
        ReleaseCall::DeleteManager { manager: c.manager.unwrap().manager },
    ]);
}

} // verus!
