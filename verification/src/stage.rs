//! The stage of the lifecycle and the resources of the ready stage.

use crate::resource::{Handle, SwapChainDescriptor};
use vstd::prelude::*;

verus! {

/// The graphics resources of the ready stage.
///
/// The adapter, the device, its queue and the pipeline with its parts are made
/// once. The surface and its swap chain come and go with the native window.
#[derive(Clone, Copy, Debug, PartialEq, Eq, Structural)]
pub struct InnerContext {
    /// The target that frames are presented to; `None` while there is no
    /// native window.
    pub surface: Option<Handle>,
    pub adapter: Handle,
    pub device: Handle,
    pub queue: Handle,
    pub vs_module: Handle,
    pub fs_module: Handle,
    pub pipeline_layout: Handle,
    pub render_pipeline: Handle,
    /// What the swap chain was made from, and will be made from again.
    pub sc_desc: SwapChainDescriptor,
    /// The swap chain of `surface`.
    pub swap_chain: Option<Handle>,
}

impl InnerContext {
    /// A swap chain exists exactly when a surface does.
    pub open spec fn wf(self) -> bool {
        self.surface is Some <==> self.swap_chain is Some
    }

    /// Whether two contexts hold the same adapter, device, queue and pipeline.
    pub open spec fn same_device(self, other: InnerContext) -> bool {
        &&& self.adapter == other.adapter
        &&& self.device == other.device
        &&& self.queue == other.queue
        &&& self.vs_module == other.vs_module
        &&& self.fs_module == other.fs_module
        &&& self.pipeline_layout == other.pipeline_layout
        &&& self.render_pipeline == other.render_pipeline
    }

    /// These resources without surface and swap chain.
    pub open spec fn without_surface(self) -> InnerContext {
        InnerContext { surface: None, swap_chain: None, ..self }
    }

    /// These resources with the given surface and the swap chain made for it.
    pub open spec fn with_surface(self, surface: Handle, swap_chain: Handle) -> InnerContext {
        InnerContext { surface: Some(surface), swap_chain: Some(swap_chain), ..self }
    }

    /// These resources with the swap chain made anew from `sc_desc`.
    pub open spec fn with_swap_chain(self, sc_desc: SwapChainDescriptor, swap_chain: Handle) -> InnerContext {
        InnerContext { sc_desc, swap_chain: Some(swap_chain), ..self }
    }
}

/// Where the lifecycle stands.
#[derive(Clone, Copy, Debug, PartialEq, Eq, Structural)]
pub enum WgpuStage {
    /// No device, no pipeline, no surface.
    Init,
    /// Device and pipeline exist; the surface may be absent.
    Ready(InnerContext),
}

impl WgpuStage {
    /// Whether the stage is still [`WgpuStage::Init`].
    pub fn not_ready(&self) -> (b: bool)
        ensures
            b == (*self is Init),
    {
        match self {
            WgpuStage::Ready(_) => false,
            _ => true,
        }
    }

    /// The stage holds a surface.
    pub open spec fn has_surface(self) -> bool {
        self matches WgpuStage::Ready(inner) && inner.surface is Some
    }

    /// The stage is ready and holds no surface.
    pub open spec fn lacks_surface(self) -> bool {
        self matches WgpuStage::Ready(inner) && inner.surface is None
    }

    /// Every ready stage is well formed.
    pub open spec fn wf(self) -> bool {
        self matches WgpuStage::Ready(inner) ==> inner.wf()
    }
}

} // verus!
