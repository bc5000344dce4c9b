//! What holds of giving handles back: each is given back once, children
//! before their owners, and what was linked is unlinked first.

use vstd::prelude::*;
use crate::resources::calls::{
    ReleaseCall, Resource, freed, lemma_freed_of_concat, lemma_freed_of_one,
};
use crate::resources::context::{CameraContext, part_count};
use crate::resources::owners::{
    CameraDevice, CameraManager, CaptureRequest, CaptureSession, ImageReader, NativeWindow,
    OutputContainer, OutputTarget, SessionOutput,
};
use crate::status::Handle;

verus! {

/// Releasing an output container gives back each handle it holds, once.
pub proof fn lemma_container_gives_back_all(c: OutputContainer)
    ensures
        freed(c.releases()) == c.resources(),
{
    let tail = seq![ReleaseCall::FreeContainer { container: c.container }];
    lemma_freed_of_one(tail[0]);
    match c.output {
        Some(o) => {
            let unlink = seq![ReleaseCall::RemoveOutput { container: c.container, output: o.output }];
            lemma_freed_of_one(unlink[0]);
            lemma_freed_of_one(o.releases()[0]);
            assert(o.releases() =~= seq![o.releases()[0]]);
            lemma_freed_of_concat(unlink, o.releases());
            lemma_freed_of_concat(unlink + o.releases(), tail);
            assert(freed(c.releases()) =~= c.resources());
        },
        None => {
            lemma_freed_of_concat(Seq::<ReleaseCall>::empty(), tail);
            assert(freed(c.releases()) =~= c.resources());
        },
    }
}

/// Releasing a capture request gives back each handle it holds, once.
pub proof fn lemma_request_gives_back_all(r: CaptureRequest)
    ensures
        freed(r.releases()) == r.resources(),
{
    let tail = seq![ReleaseCall::FreeRequest { request: r.request }];
    lemma_freed_of_one(tail[0]);
    match r.target {
        Some(t) => {
            let unlink = seq![ReleaseCall::RemoveTarget { request: r.request, target: t.target }];
            lemma_freed_of_one(unlink[0]);
            lemma_freed_of_one(t.releases()[0]);
            assert(t.releases() =~= seq![t.releases()[0]]);
            lemma_freed_of_concat(unlink, t.releases());
            lemma_freed_of_concat(unlink + t.releases(), tail);
            assert(freed(r.releases()) =~= r.resources());
        },
        None => {
            lemma_freed_of_concat(Seq::<ReleaseCall>::empty(), tail);
            assert(freed(r.releases()) =~= r.resources());
        },
    }
}

/// A capture request that was given its target, such as one that comes
/// back from a session that could not be started, is given back in three
/// calls: the target is detached, the target is freed, the request is freed.
/// No session is closed by them.
pub proof fn lemma_request_with_target_release_order(r: CaptureRequest)
    requires
        r.target is Some,
    ensures
        r.releases() == seq![
            ReleaseCall::RemoveTarget { request: r.request, target: r.target->0.target },
            ReleaseCall::FreeTarget { target: r.target->0.target },
            ReleaseCall::FreeRequest { request: r.request },
        ],
{
    assert(r.releases() =~= seq![
        ReleaseCall::RemoveTarget { request: r.request, target: r.target->0.target },
        ReleaseCall::FreeTarget { target: r.target->0.target },
        ReleaseCall::FreeRequest { request: r.request },
    ]);
}

/// An output container that was given its output, such as one that comes
/// back from a device that could not create a session, is given back in
/// three calls: the output is removed, the output is freed, the container is
/// freed. No device is closed by them.
pub proof fn lemma_container_with_output_release_order(c: OutputContainer)
    requires
        c.output is Some,
    ensures
        c.releases() == seq![
            ReleaseCall::RemoveOutput { container: c.container, output: c.output->0.output },
            ReleaseCall::FreeOutput { output: c.output->0.output },
            ReleaseCall::FreeContainer { container: c.container },
        ],
{
    assert(c.releases() =~= seq![
        ReleaseCall::RemoveOutput { container: c.container, output: c.output->0.output },
        ReleaseCall::FreeOutput { output: c.output->0.output },
        ReleaseCall::FreeContainer { container: c.container },
    ]);
}

/// Releasing a capture session gives back each handle it holds, once.
pub proof fn lemma_session_gives_back_all(s: CaptureSession)
    ensures
        freed(s.releases()) == s.resources(),
{
    let tail = seq![ReleaseCall::CloseSession { session: s.session }];
    lemma_freed_of_one(tail[0]);
    match s.request {
        Some(r) => {
            lemma_request_gives_back_all(r);
            lemma_freed_of_concat(r.releases(), tail);
        },
        None => {
            lemma_freed_of_concat(Seq::<ReleaseCall>::empty(), tail);
        },
    }
    assert(freed(s.releases()) =~= s.resources());
}

/// Releasing a camera device gives back each handle it holds, once.
pub proof fn lemma_device_gives_back_all(d: CameraDevice)
    ensures
        freed(d.releases()) == d.resources(),
{
    let tail = seq![ReleaseCall::CloseDevice { device: d.device }];
    lemma_freed_of_one(tail[0]);
    match d.container {
        Some(c) => {
            lemma_container_gives_back_all(c);
            lemma_freed_of_concat(c.releases(), tail);
        },
        None => {
            lemma_freed_of_concat(Seq::<ReleaseCall>::empty(), tail);
        },
    }
    assert(freed(d.releases()) =~= d.resources());
}

/// What ten runs of calls give back, one after the other.
proof fn lemma_freed_of_ten(p: spec_fn(int) -> Seq<ReleaseCall>, r: spec_fn(int) -> Seq<Resource>)
    requires
        forall|i: int| 0 <= i < 10 ==> freed(#[trigger] p(i)) == r(i),
    ensures
        freed(p(0) + p(1) + p(2) + p(3) + p(4) + p(5) + p(6) + p(7) + p(8) + p(9)) == r(0) + r(1)
            + r(2) + r(3) + r(4) + r(5) + r(6) + r(7) + r(8) + r(9),
{
    lemma_freed_of_concat(p(0), p(1));
    lemma_freed_of_concat(p(0) + p(1), p(2));
    lemma_freed_of_concat(p(0) + p(1) + p(2), p(3));
    lemma_freed_of_concat(p(0) + p(1) + p(2) + p(3), p(4));
    lemma_freed_of_concat(p(0) + p(1) + p(2) + p(3) + p(4), p(5));
    lemma_freed_of_concat(p(0) + p(1) + p(2) + p(3) + p(4) + p(5), p(6));
    lemma_freed_of_concat(p(0) + p(1) + p(2) + p(3) + p(4) + p(5) + p(6), p(7));
    lemma_freed_of_concat(p(0) + p(1) + p(2) + p(3) + p(4) + p(5) + p(6) + p(7), p(8));
    lemma_freed_of_concat(p(0) + p(1) + p(2) + p(3) + p(4) + p(5) + p(6) + p(7) + p(8), p(9));
}

/// What a single call that frees a handle gives back.
proof fn lemma_freed_of_leaf(calls: Seq<ReleaseCall>, r: Resource)
    requires
        calls.len() == 1,
        calls[0].frees() == Some(r),
    ensures
        freed(calls) == seq![r],
{
    lemma_freed_of_one(calls[0]);
    assert(calls =~= seq![calls[0]]);
}

/// Releasing one part of a context gives back each handle it holds, once.
proof fn lemma_part_gives_back_all(c: CameraContext, i: int)
    requires
        0 <= i < 10,
    ensures
        freed(c.release_part(i)) == c.resource_part(i),
{
    assert(freed(Seq::<ReleaseCall>::empty()) == Seq::<Resource>::empty()) by {
        reveal_with_fuel(freed, 1);
    }
    if i == 0 {
        if let Some(m) = c.metadata {
            lemma_freed_of_leaf(m.releases(), m.resources()[0]);
        }
    } else if i == 1 {
        if let Some(l) = c.id_list {
            lemma_freed_of_leaf(l.releases(), l.resources()[0]);
        }
    } else if i == 2 {
        if let Some(q) = c.request {
            lemma_request_gives_back_all(q);
        }
    } else if i == 3 {
        if let Some(s) = c.session {
            lemma_session_gives_back_all(s);
        }
    } else if i == 4 {
        if let Some(o) = c.output {
            lemma_freed_of_leaf(o.releases(), o.resources()[0]);
        }
    } else if i == 5 {
        if let Some(k) = c.container {
            lemma_container_gives_back_all(k);
        }
    } else if i == 6 {
        if let Some(d) = c.device {
            lemma_device_gives_back_all(d);
        }
    } else if i == 7 {
        if let Some(t) = c.target {
            lemma_freed_of_leaf(t.releases(), t.resources()[0]);
        }
    } else if i == 8 {
        if let Some(r) = c.image_reader {
            lemma_freed_of_leaf(r.releases(), r.resources()[0]);
        }
    } else {
        if let Some(m) = c.manager {
            lemma_freed_of_leaf(m.releases(), m.resources()[0]);
        }
    }
}

/// Releasing a context gives back every live handle exactly once, and
/// nothing else: no handle leaks and none is given back twice.
pub proof fn lemma_context_gives_back_all(c: CameraContext)
    ensures
        freed(c.releases()) == c.resources(),
{
    reveal(CameraContext::releases);
    reveal(CameraContext::resources);
    let p = |i: int| c.release_part(i);
    let r = |i: int| c.resource_part(i);
    assert forall|i: int| 0 <= i < 10 implies freed(#[trigger] p(i)) == r(i) by {
        lemma_part_gives_back_all(c, i);
    }
    lemma_freed_of_ten(p, r);
}

/// A context that holds nothing has nothing live and nothing to give back.
pub proof fn lemma_empty_context()
    ensures
        CameraContext::empty().resources() == Seq::<Resource>::empty(),
        CameraContext::empty().releases() == Seq::<ReleaseCall>::empty(),
{
    reveal(CameraContext::releases);
    reveal(CameraContext::resources);
    assert(CameraContext::empty().resources() =~= Seq::<Resource>::empty());
    assert(CameraContext::empty().releases() =~= Seq::<ReleaseCall>::empty());
}

/// A context that holds an image reader gives it back.
pub proof fn lemma_reader_is_released(c: CameraContext)
    requires
        c.image_reader is Some,
    ensures
        exists|i: int|
            0 <= i < c.releases().len() && #[trigger] c.releases()[i] is DeleteReader,
{
    reveal(CameraContext::releases);
    let i = c.release_part(0).len() + c.release_part(1).len() + c.release_part(2).len()
        + c.release_part(3).len() + c.release_part(4).len() + c.release_part(5).len()
        + c.release_part(6).len() + c.release_part(7).len();
    assert(c.releases()[i as int] == c.release_part(8)[0]);
    assert(c.releases()[i as int] is DeleteReader);
}

/// A context that holds a manager has something to give back.
pub proof fn lemma_manager_is_released(c: CameraContext)
    requires
        c.manager is Some,
    ensures
        c.releases().len() > 0,
{
    reveal(CameraContext::releases);
    assert(c.release_part(9).len() == 1);
}

/// The live handles of one part of a context are as many as the part holds.
proof fn lemma_part_is_counted(c: CameraContext, i: int)
    requires
        0 <= i < 10,
    ensures
        c.resource_part(i).len() == part_count(c, i),
{
}

/// The live handles of a context are as many as its parts hold.
pub proof fn lemma_resources_are_counted(c: CameraContext)
    ensures
        c.resources().len() == c.live_count(),
{
    reveal(CameraContext::resources);
    lemma_part_is_counted(c, 0);
    lemma_part_is_counted(c, 1);
    lemma_part_is_counted(c, 2);
    lemma_part_is_counted(c, 3);
    lemma_part_is_counted(c, 4);
    lemma_part_is_counted(c, 5);
    lemma_part_is_counted(c, 6);
    lemma_part_is_counted(c, 7);
    lemma_part_is_counted(c, 8);
    lemma_part_is_counted(c, 9);
}

/// A complete graph is given back in this order: the target is detached
/// from the request and both are freed, the session is closed, the output is
/// taken out of the container and both are freed, the device is closed, the
/// image reader is deleted, and the manager is deleted last.
pub proof fn lemma_complete_graph_release_order(
    manager: Handle,
    device: Handle,
    reader: Handle,
    target: Handle,
    container: Handle,
    output: Handle,
    session: Handle,
    request: Handle,
    window: Handle,
)
    ensures
        (CameraContext {
            session: Some(
                CaptureSession {
                    session,
                    request: Some(CaptureRequest { request, target: Some(OutputTarget { target }) }),
                },
            ),
            device: Some(
                CameraDevice {
                    device,
                    container: Some(
                        OutputContainer { container, output: Some(SessionOutput { output }) },
                    ),
                },
            ),
            window: Some(NativeWindow { window }),
            image_reader: Some(ImageReader { reader, listening: true }),
            manager: Some(CameraManager { manager }),
            ..CameraContext::empty()
        }).releases() == seq![
            ReleaseCall::RemoveTarget { request, target },
            ReleaseCall::FreeTarget { target },
            ReleaseCall::FreeRequest { request },
            ReleaseCall::CloseSession { session },
            ReleaseCall::RemoveOutput { container, output },
            ReleaseCall::FreeOutput { output },
            ReleaseCall::FreeContainer { container },
            ReleaseCall::CloseDevice { device },
            ReleaseCall::DeleteReader { reader },
            ReleaseCall::DeleteManager { manager },
        ],
{
    reveal(CameraContext::releases);
    let c = CameraContext {
        session: Some(
            CaptureSession {
                session,
                request: Some(CaptureRequest { request, target: Some(OutputTarget { target }) }),
            },
        ),
        device: Some(
            CameraDevice {
                device,
                container: Some(OutputContainer { container, output: Some(SessionOutput { output }) }),
            },
        ),
        window: Some(NativeWindow { window }),
        image_reader: Some(ImageReader { reader, listening: true }),
        manager: Some(CameraManager { manager }),
        ..CameraContext::empty()
    };
    assert(c.releases() =~= seq![
        ReleaseCall::RemoveTarget { request, target },
        ReleaseCall::FreeTarget { target },
        ReleaseCall::FreeRequest { request },
        ReleaseCall::CloseSession { session },
        ReleaseCall::RemoveOutput { container, output },
        ReleaseCall::FreeOutput { output },
        ReleaseCall::FreeContainer { container },
        ReleaseCall::CloseDevice { device },
        ReleaseCall::DeleteReader { reader },
        ReleaseCall::DeleteManager { manager },
    ]);
}

} // verus!
