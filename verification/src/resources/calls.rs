//! The calls that give native handles back, and what a run of them frees.

use vstd::prelude::*;
use crate::status::Handle;

verus! {

/// The kinds of handle that the native service hands out.
#[derive(Clone, Copy, Debug, PartialEq, Eq, Structural)]
pub enum ResourceKind {
    Manager,
    IdList,
    Metadata,
    Device,
    Reader,
    Target,
    Container,
    Output,
    Session,
    Request,
    Image,
}

/// One live native handle.
#[derive(Clone, Copy, Debug, PartialEq, Eq, Structural)]
pub struct Resource {
    pub kind: ResourceKind,
    pub handle: Handle,
}

/// A native call that unlinks two handles or gives one back.
#[derive(Clone, Copy, Debug, PartialEq, Eq, Structural)]
pub enum ReleaseCall {
    /// Detach an output target from the capture request it was added to.
    RemoveTarget { request: Handle, target: Handle },
    FreeTarget { target: Handle },
    FreeRequest { request: Handle },
    CloseSession { session: Handle },
    /// Take a session output out of the container it was added to.
    RemoveOutput { container: Handle, output: Handle },
    FreeOutput { output: Handle },
    FreeContainer { container: Handle },
    CloseDevice { device: Handle },
    DeleteReader { reader: Handle },
    DeleteManager { manager: Handle },
    DeleteIdList { list: Handle },
    FreeMetadata { metadata: Handle },
    DeleteImage { image: Handle },
}

impl ReleaseCall {
    /// The handle that the call gives back; an unlinking call gives back none.
    pub open spec fn frees(self) -> Option<Resource> {
        match self {
            ReleaseCall::RemoveTarget { .. } => None,
            ReleaseCall::RemoveOutput { .. } => None,
            ReleaseCall::FreeTarget { target } => Some(
                Resource { kind: ResourceKind::Target, handle: target },
            ),
            ReleaseCall::FreeRequest { request } => Some(
                Resource { kind: ResourceKind::Request, handle: request },
            ),
            ReleaseCall::CloseSession { session } => Some(
                Resource { kind: ResourceKind::Session, handle: session },
            ),
            ReleaseCall::FreeOutput { output } => Some(
                Resource { kind: ResourceKind::Output, handle: output },
            ),
            ReleaseCall::FreeContainer { container } => Some(
                Resource { kind: ResourceKind::Container, handle: container },
            ),
            ReleaseCall::CloseDevice { device } => Some(
                Resource { kind: ResourceKind::Device, handle: device },
            ),
            ReleaseCall::DeleteReader { reader } => Some(
                Resource { kind: ResourceKind::Reader, handle: reader },
            ),
            ReleaseCall::DeleteManager { manager } => Some(
                Resource { kind: ResourceKind::Manager, handle: manager },
            ),
            ReleaseCall::DeleteIdList { list } => Some(
                Resource { kind: ResourceKind::IdList, handle: list },
            ),
            ReleaseCall::FreeMetadata { metadata } => Some(
                Resource { kind: ResourceKind::Metadata, handle: metadata },
            ),
            ReleaseCall::DeleteImage { image } => Some(
                Resource { kind: ResourceKind::Image, handle: image },
            ),
        }
    }

    /// Whether the call only unlinks. Its failure is ignored: the peer may be
    /// gone already.
    pub fn is_unlink(&self) -> (b: bool)
        ensures
            b == (self.frees() is None),
    {
        match self {
            ReleaseCall::RemoveTarget { .. } => true,
            ReleaseCall::RemoveOutput { .. } => true,
            _ => false,
        }
    }
}

/// The handles that a sequence of calls gives back, in the order of the calls.
#[verifier::opaque]
pub open spec fn freed(calls: Seq<ReleaseCall>) -> Seq<Resource>
    decreases calls.len(),
{
    if calls.len() == 0 {
        Seq::empty()
    } else {
        match calls.last().frees() {
            Some(r) => freed(calls.drop_last()).push(r),
            None => freed(calls.drop_last()),
        }
    }
}

/// What two runs of calls give back is what the first gives back, then what
/// the second gives back.
pub proof fn lemma_freed_of_concat(a: Seq<ReleaseCall>, b: Seq<ReleaseCall>)
    ensures
        freed(a + b) == freed(a) + freed(b),
    decreases b.len(),
{
    reveal_with_fuel(freed, 2);
    if b.len() == 0 {
        assert(a + b =~= a);
        assert(freed(a) + freed(b) =~= freed(a));
    } else {
        assert((a + b).drop_last() =~= a + b.drop_last());
        assert((a + b).last() == b.last());
        lemma_freed_of_concat(a, b.drop_last());
        match b.last().frees() {
            Some(r) => {
                assert(freed(a + b) =~= (freed(a) + freed(b.drop_last())).push(r));
                assert(freed(a) + freed(b) =~= (freed(a) + freed(b.drop_last())).push(r));
            },
            None => {},
        }
    }
}

/// What one call gives back.
pub proof fn lemma_freed_of_one(call: ReleaseCall)
    ensures
        freed(seq![call]) == (match call.frees() {
            Some(r) => seq![r],
            None => Seq::<Resource>::empty(),
        }),
{
    assert(seq![call].drop_last() =~= Seq::<ReleaseCall>::empty());
    assert(seq![call].last() == call);
    reveal_with_fuel(freed, 2);
    match call.frees() {
        Some(r) => {
            assert(freed(seq![call]) =~= seq![r]);
        },
        None => {},
    }
}

} // verus!
