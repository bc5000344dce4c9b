//! Owners of the native handles that make up a capture graph. Each owner
//! knows the calls that give its handle back: what has to be unlinked from a
//! peer first, then the children it holds, then the handle itself.
//!
//! A native call is made by the caller; the owner takes the reply and says
//! what came of it. An owner cannot be copied, so a handle has one owner.

pub mod calls;
pub mod context;
pub mod laws;
pub mod owners;

pub use calls::{freed, lemma_freed_of_concat, lemma_freed_of_one, ReleaseCall, Resource, ResourceKind};
pub use context::{part_count, CameraContext};
pub use laws::{
    lemma_complete_graph_release_order, lemma_container_gives_back_all,
    lemma_context_gives_back_all, lemma_device_gives_back_all, lemma_empty_context,
    lemma_manager_is_released, lemma_reader_is_released, lemma_request_gives_back_all,
    lemma_resources_are_counted, lemma_session_gives_back_all,
};
pub use owners::{
    CameraDevice, CameraIdList, CameraManager, CameraMetadata, CaptureRequest, CaptureSession,
    Image, ImageReader, NativeWindow, OutputContainer, OutputTarget, SessionOutput,
};
