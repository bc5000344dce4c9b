//! The handles of one capture pipeline, held together.

use vstd::prelude::*;
use crate::resources::calls::{ReleaseCall, Resource};
use crate::resources::owners::{
    CameraDevice, CameraIdList, CameraManager, CameraMetadata, CaptureRequest, CaptureSession,
    ImageReader, NativeWindow, OutputContainer, OutputTarget, SessionOutput,
};

verus! {

/// The handles of one capture pipeline, complete or still being built. Parts
/// that are not yet owned by another part are held here directly.
#[derive(Debug)]
pub struct CameraContext {
    /// The characteristics that are being read.
    pub metadata: Option<CameraMetadata>,
    /// The list of cameras that is being searched.
    pub id_list: Option<CameraIdList>,
    /// The capture request, while no session repeats it.
    pub request: Option<CaptureRequest>,
    pub session: Option<CaptureSession>,
    /// The session output, while it is in no container.
    pub output: Option<SessionOutput>,
    /// The output container, while no device owns it.
    pub container: Option<OutputContainer>,
    pub device: Option<CameraDevice>,
    /// The output target, while it is attached to no request.
    pub target: Option<OutputTarget>,
    /// The surface of the image reader.
    pub window: Option<NativeWindow>,
    pub image_reader: Option<ImageReader>,
    pub manager: Option<CameraManager>,
}

impl CameraContext {
    /// A context that holds nothing.
    pub open spec fn empty() -> CameraContext {
        CameraContext {
            metadata: None,
            id_list: None,
            request: None,
            session: None,
            output: None,
            container: None,
            device: None,
            target: None,
            window: None,
            image_reader: None,
            manager: None,
        }
    }

    /// A context that holds nothing.
    pub fn new() -> (c: Self)
        ensures
            c == CameraContext::empty(),
    {
        CameraContext {
            metadata: None,
            id_list: None,
            request: None,
            session: None,
            output: None,
            container: None,
            device: None,
            target: None,
            window: None,
            image_reader: None,
            manager: None,
        }
    }

    /// The live handles of part `i` of the context; the parts are numbered in
    /// the order in which they are given back.
    pub open spec fn resource_part(&self, i: int) -> Seq<Resource> {
        if i == 0 {
            match self.metadata {
                Some(m) => m.resources(),
                None => Seq::<Resource>::empty(),
            }
        } else if i == 1 {
            match self.id_list {
                Some(l) => l.resources(),
                None => Seq::<Resource>::empty(),
            }
        } else if i == 2 {
            match self.request {
                Some(r) => r.resources(),
                None => Seq::<Resource>::empty(),
            }
        } else if i == 3 {
            match self.session {
                Some(s) => s.resources(),
                None => Seq::<Resource>::empty(),
            }
        } else if i == 4 {
            match self.output {
                Some(o) => o.resources(),
                None => Seq::<Resource>::empty(),
            }
        } else if i == 5 {
            match self.container {
                Some(c) => c.resources(),
                None => Seq::<Resource>::empty(),
            }
        } else if i == 6 {
            match self.device {
                Some(d) => d.resources(),
                None => Seq::<Resource>::empty(),
            }
        } else if i == 7 {
            match self.target {
                Some(t) => t.resources(),
                None => Seq::<Resource>::empty(),
            }
        } else if i == 8 {
            match self.image_reader {
                Some(r) => r.resources(),
                None => Seq::<Resource>::empty(),
            }
        } else {
            match self.manager {
                Some(m) => m.resources(),
                None => Seq::<Resource>::empty(),
            }
        }
    }

    /// The calls that give part `i` of the context back.
    pub open spec fn release_part(&self, i: int) -> Seq<ReleaseCall> {
        if i == 0 {
            match self.metadata {
                Some(m) => m.releases(),
                None => Seq::<ReleaseCall>::empty(),
            }
        } else if i == 1 {
            match self.id_list {
                Some(l) => l.releases(),
                None => Seq::<ReleaseCall>::empty(),
            }
        } else if i == 2 {
            match self.request {
                Some(r) => r.releases(),
                None => Seq::<ReleaseCall>::empty(),
            }
        } else if i == 3 {
            match self.session {
                Some(s) => s.releases(),
                None => Seq::<ReleaseCall>::empty(),
            }
        } else if i == 4 {
            match self.output {
                Some(o) => o.releases(),
                None => Seq::<ReleaseCall>::empty(),
            }
        } else if i == 5 {
            match self.container {
                Some(c) => c.releases(),
                None => Seq::<ReleaseCall>::empty(),
            }
        } else if i == 6 {
            match self.device {
                Some(d) => d.releases(),
                None => Seq::<ReleaseCall>::empty(),
            }
        } else if i == 7 {
            match self.target {
                Some(t) => t.releases(),
                None => Seq::<ReleaseCall>::empty(),
            }
        } else if i == 8 {
            match self.image_reader {
                Some(r) => r.releases(),
                None => Seq::<ReleaseCall>::empty(),
            }
        } else {
            match self.manager {
                Some(m) => m.releases(),
                None => Seq::<ReleaseCall>::empty(),
            }
        }
    }

    /// The live handles, in the order in which they are given back.
    #[verifier::opaque]
    pub open spec fn resources(&self) -> Seq<Resource> {
        self.resource_part(0) + self.resource_part(1) + self.resource_part(2) + self.resource_part(3)
            + self.resource_part(4) + self.resource_part(5) + self.resource_part(6)
            + self.resource_part(7) + self.resource_part(8) + self.resource_part(9)
    }

    /// The calls that give everything back: what is being read, then the
    /// request and its target, the session, the output and its container, the
    /// device, the image reader, and last the manager.
    #[verifier::opaque]
    pub open spec fn releases(&self) -> Seq<ReleaseCall> {
        self.release_part(0) + self.release_part(1) + self.release_part(2) + self.release_part(3)
            + self.release_part(4) + self.release_part(5) + self.release_part(6)
            + self.release_part(7) + self.release_part(8) + self.release_part(9)
    }

    /// The number of live handles.
    pub open spec fn live_count(&self) -> int {
        part_count(*self, 0) + part_count(*self, 1) + part_count(*self, 2) + part_count(*self, 3)
            + part_count(*self, 4) + part_count(*self, 5) + part_count(*self, 6) + part_count(
            *self,
            7,
        ) + part_count(*self, 8) + part_count(*self, 9)
    }

    /// Gives everything back: the calls to make, in order.
    pub fn release(self) -> (calls: Vec<ReleaseCall>)
        ensures
            calls@ == self.releases(),
    {
        let mut calls: Vec<ReleaseCall> = Vec::new();
        let CameraContext {
            metadata,
            id_list,
            request,
            session,
            output,
            container,
            device,
            target,
            window,
            image_reader,
            manager,
        } = self;
        if let Some(m) = metadata {
            m.release_into(&mut calls);
        }
        if let Some(l) = id_list {
            l.release_into(&mut calls);
        }
        if let Some(r) = request {
            r.release_into(&mut calls);
        }
        if let Some(s) = session {
            s.release_into(&mut calls);
        }
        if let Some(o) = output {
            o.release_into(&mut calls);
        }
        if let Some(c) = container {
            c.release_into(&mut calls);
        }
        if let Some(d) = device {
            d.release_into(&mut calls);
        }
        if let Some(t) = target {
            t.release_into(&mut calls);
        }
        if let Some(r) = image_reader {
            r.release_into(&mut calls);
        }
        if let Some(m) = manager {
            m.release_into(&mut calls);
        }
        assert(calls@ =~= self.releases()) by {
            reveal(CameraContext::releases);
        }
        calls
    }
}

/// The number of live handles of part `i` of a context.
pub open spec fn part_count(c: CameraContext, i: int) -> int {
    if i == 0 {
        if c.metadata is Some { 1 } else { 0 }
    } else if i == 1 {
        if c.id_list is Some { 1 } else { 0 }
    } else if i == 2 {
        match c.request {
            Some(q) => if q.target is Some { 2 } else { 1 },
            None => 0,
        }
    } else if i == 3 {
        match c.session {
            Some(s) => match s.request {
                Some(q) => if q.target is Some { 3 } else { 2 },
                None => 1,
            },
            None => 0,
        }
    } else if i == 4 {
        if c.output is Some { 1 } else { 0 }
    } else if i == 5 {
        match c.container {
            Some(k) => if k.output is Some { 2 } else { 1 },
            None => 0,
        }
    } else if i == 6 {
        match c.device {
            Some(d) => match d.container {
                Some(k) => if k.output is Some { 3 } else { 2 },
                None => 1,
            },
            None => 0,
        }
    } else if i == 7 {
        if c.target is Some { 1 } else { 0 }
    } else if i == 8 {
        if c.image_reader is Some { 1 } else { 0 }
    } else {
        if c.manager is Some { 1 } else { 0 }
    }
}

} // verus!
