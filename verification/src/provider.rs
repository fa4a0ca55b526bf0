//! What passes between the lifecycle and the capability provider.
//!
//! The lifecycle never calls the provider. An operation ends in a [`Step`];
//! where the step is [`Step::Perform`], the caller has the provider carry out
//! the [`Request`] and hands the provider's [`Reply`] back.

use crate::resource::{
    DeviceDescriptor, Handle, PipelineLayoutDescriptor, RenderPass, RenderPipelineDescriptor,
    RequestAdapterOptions, ShaderStage, SwapChainDescriptor,
};
use vstd::prelude::*;

verus! {

/// One thing that the capability provider is asked to do.
#[allow(inconsistent_fields)]
#[derive(Clone, Copy, Debug, PartialEq, Eq, Structural)]
pub enum Request {
    /// Make a surface for the native window. Answered by [`Reply::Surface`].
    CreateSurface { instance: Handle, window: Handle },
    /// Find an adapter. Answered by [`Reply::Adapter`].
    RequestAdapter { instance: Handle, options: RequestAdapterOptions },
    /// Make a logical device and its command queue. Answered by [`Reply::Device`].
    RequestDevice { adapter: Handle, descriptor: DeviceDescriptor },
    /// Make the shader module of one stage from the binary supplied for it.
    /// Answered by [`Reply::ShaderModule`].
    CreateShaderModule { device: Handle, stage: ShaderStage },
    /// Make a pipeline layout. Answered by [`Reply::PipelineLayout`].
    CreatePipelineLayout { device: Handle, descriptor: PipelineLayoutDescriptor },
    /// Make a render pipeline. Answered by [`Reply::RenderPipeline`].
    CreateRenderPipeline { device: Handle, descriptor: RenderPipelineDescriptor },
    /// Measure the inner size of the window. Answered by [`Reply::WindowSize`].
    WindowSize { window: Handle },
    /// Make a swap chain for the surface, and then throw away the swap chain
    /// that it replaces, if any. Answered by [`Reply::SwapChain`].
    CreateSwapChain {
        device: Handle,
        surface: Handle,
        descriptor: SwapChainDescriptor,
        replaces: Option<Handle>,
    },
    /// Throw away the surface and the swap chain made for it. Answered by
    /// [`Reply::Dropped`].
    DropSurface { surface: Handle, swap_chain: Handle },
    /// Take the next frame of the swap chain. Answered by [`Reply::Frame`].
    AcquireFrame { swap_chain: Handle },
    /// Record the pass and submit it to the queue. Answered by
    /// [`Reply::Submitted`].
    Submit { device: Handle, queue: Handle, pass: RenderPass },
}

/// A device together with its command queue.
#[derive(Clone, Copy, Debug, PartialEq, Eq, Structural)]
pub struct DeviceQueue {
    pub device: Handle,
    pub queue: Handle,
}

/// What the capability provider answers to a [`Request`].
#[derive(Clone, Copy, Debug, PartialEq, Eq, Structural)]
pub enum Reply {
    Surface(Handle),
    /// The adapter found, or `None` where no adapter fits.
    Adapter(Option<Handle>),
    /// The device made, or `None` where the adapter refused.
    Device(Option<DeviceQueue>),
    ShaderModule(Handle),
    PipelineLayout(Handle),
    RenderPipeline(Handle),
    WindowSize { width: u32, height: u32 },
    SwapChain(Handle),
    Dropped,
    /// The frame taken, or `None` where the swap chain gave none.
    Frame(Option<Handle>),
    Submitted,
}

impl Request {
    /// Whether `reply` is of the kind that answers this request.
    pub open spec fn is_answered_by(self, reply: Reply) -> bool {
        match self {
            Request::CreateSurface { .. } => reply is Surface,
            Request::RequestAdapter { .. } => reply is Adapter,
            Request::RequestDevice { .. } => reply is Device,
            Request::CreateShaderModule { .. } => reply is ShaderModule,
            Request::CreatePipelineLayout { .. } => reply is PipelineLayout,
            Request::CreateRenderPipeline { .. } => reply is RenderPipeline,
            Request::WindowSize { .. } => reply is WindowSize,
            Request::CreateSwapChain { .. } => reply is SwapChain,
            Request::DropSurface { .. } => reply is Dropped,
            Request::AcquireFrame { .. } => reply is Frame,
            Request::Submit { .. } => reply is Submitted,
        }
    }

    /// Whether the request makes an adapter, a device or a part of the
    /// pipeline.
    pub open spec fn makes_device(self) -> bool {
        ||| self is RequestAdapter
        ||| self is RequestDevice
        ||| self is CreateShaderModule
        ||| self is CreatePipelineLayout
        ||| self is CreateRenderPipeline
    }

    /// Computes [`Request::is_answered_by`].
    pub fn answered_by(&self, reply: &Reply) -> (b: bool)
        ensures
            b == self.is_answered_by(*reply),
    {
        match (self, reply) {
            (Request::CreateSurface { .. }, Reply::Surface(_)) => true,
            (Request::RequestAdapter { .. }, Reply::Adapter(_)) => true,
            (Request::RequestDevice { .. }, Reply::Device(_)) => true,
            (Request::CreateShaderModule { .. }, Reply::ShaderModule(_)) => true,
            (Request::CreatePipelineLayout { .. }, Reply::PipelineLayout(_)) => true,
            (Request::CreateRenderPipeline { .. }, Reply::RenderPipeline(_)) => true,
            (Request::WindowSize { .. }, Reply::WindowSize { .. }) => true,
            (Request::CreateSwapChain { .. }, Reply::SwapChain(_)) => true,
            (Request::DropSurface { .. }, Reply::Dropped) => true,
            (Request::AcquireFrame { .. }, Reply::Frame(_)) => true,
            (Request::Submit { .. }, Reply::Submitted) => true,
            _ => false,
        }
    }
}

/// Why an operation had nothing to do.
#[derive(Clone, Copy, Debug, PartialEq, Eq, Structural)]
pub enum Skip {
    /// No native window is at hand.
    NoWindow,
    /// The surface is there already.
    SurfacePresent,
    /// No device exists yet.
    Uninitialized,
    /// The device exists, the surface does not.
    NoSurface,
}

/// A failure that nothing recovers from.
#[derive(Clone, Copy, Debug, PartialEq, Eq, Structural)]
pub enum Failure {
    NoAdapter,
    NoDevice,
    NoFrame,
}

/// Why an input was turned away.
#[derive(Clone, Copy, Debug, PartialEq, Eq, Structural)]
pub enum Refusal {
    /// An operation is under way; a new one starts when it has ended.
    Busy,
    /// The reply does not answer the request that is open, or none is open.
    Unexpected,
}

/// How an operation, or one step of it, ended.
#[derive(Clone, Copy, Debug, PartialEq, Eq, Structural)]
pub enum Step {
    /// The provider has to carry out the request; the operation goes on with
    /// its reply.
    Perform(Request),
    /// The operation is complete.
    Done,
    /// The operation had nothing to do: nothing was asked of the provider and
    /// nothing has changed.
    Skipped(Skip),
    /// The operation failed for good and is over.
    Fatal(Failure),
    /// The input was turned away and nothing has changed.
    Refused(Refusal),
}

impl Failure {
    /// The message that a program ends with on this failure.
    pub open spec fn message_text(self) -> Seq<char> {
        match self {
            Failure::NoAdapter => "Failed to find an appropriate adapter"@,
            Failure::NoDevice => "Failed to create device"@,
            Failure::NoFrame => "Failed to acquire next swap chain texture"@,
        }
    }

    /// Computes [`Failure::message_text`].
    pub fn message(&self) -> (text: &'static str)
        ensures
            text@ == self.message_text(),
    {
        match self {
            Failure::NoAdapter => "Failed to find an appropriate adapter",
            Failure::NoDevice => "Failed to create device",
            Failure::NoFrame => "Failed to acquire next swap chain texture",
        }
    }
}

} // verus!
