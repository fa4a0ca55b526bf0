//! The lifecycle as a mathematical state machine.
//!
//! A [`Lifecycle`] is the whole state: the stage and the operation under way.
//! Each operation is a function from a state and an input to the next state
//! and a [`Step`]. An operation that needs the provider leaves a [`Task`]
//! behind, and [`Lifecycle::resume`] takes it up with the provider's reply.
//! The stage changes only when an operation completes, so an operation that
//! fails half way leaves no trace in it.

use crate::provider::{Failure, Refusal, Reply, Request, Skip, Step};
use crate::resource::{
    adapter_options_for, empty_layout, plain_device, resized, triangle_pass, triangle_pipeline,
    window_swap_chain, Handle, ShaderStage, SwapChainDescriptor, TextureFormat,
};
use crate::stage::{InnerContext, WgpuStage};
use vstd::prelude::*;

verus! {

/// The operation under way: which reply is awaited, and what the operation
/// has gathered so far.
#[derive(Clone, Copy, Debug, PartialEq, Eq, Structural)]
pub enum Task {
    /// No operation is under way.
    Idle,
    /// First setup: the surface is being made.
    CreatingSurface { window: Handle, format: TextureFormat },
    /// First setup: an adapter for the surface is being looked for.
    RequestingAdapter { window: Handle, format: TextureFormat, surface: Handle },
    /// First setup: the device is being made.
    RequestingDevice { window: Handle, format: TextureFormat, surface: Handle, adapter: Handle },
    /// First setup: the vertex shader module is being made.
    CreatingVertexModule {
        window: Handle,
        format: TextureFormat,
        surface: Handle,
        adapter: Handle,
        device: Handle,
        queue: Handle,
    },
    /// First setup: the fragment shader module is being made.
    CreatingFragmentModule {
        window: Handle,
        format: TextureFormat,
        surface: Handle,
        adapter: Handle,
        device: Handle,
        queue: Handle,
        vs_module: Handle,
    },
    /// First setup: the pipeline layout is being made.
    CreatingPipelineLayout {
        window: Handle,
        format: TextureFormat,
        surface: Handle,
        adapter: Handle,
        device: Handle,
        queue: Handle,
        vs_module: Handle,
        fs_module: Handle,
    },
    /// First setup: the render pipeline is being made.
    CreatingRenderPipeline {
        window: Handle,
        format: TextureFormat,
        surface: Handle,
        adapter: Handle,
        device: Handle,
        queue: Handle,
        vs_module: Handle,
        fs_module: Handle,
        pipeline_layout: Handle,
    },
    /// First setup: the window is being measured.
    MeasuringWindow {
        format: TextureFormat,
        surface: Handle,
        adapter: Handle,
        device: Handle,
        queue: Handle,
        vs_module: Handle,
        fs_module: Handle,
        pipeline_layout: Handle,
        render_pipeline: Handle,
    },
    /// First setup: the swap chain is being made.
    CreatingSwapChain {
        surface: Handle,
        adapter: Handle,
        device: Handle,
        queue: Handle,
        vs_module: Handle,
        fs_module: Handle,
        pipeline_layout: Handle,
        render_pipeline: Handle,
        sc_desc: SwapChainDescriptor,
    },
    /// Later setup: a surface for the window that came back is being made.
    RestoringSurface,
    /// Later setup: the swap chain of the new surface is being made.
    RestoringSwapChain { surface: Handle },
    /// Resize: the swap chain is being made anew from `sc_desc`.
    Resizing { sc_desc: SwapChainDescriptor },
    /// Teardown: surface and swap chain are being thrown away.
    Dropping,
    /// Draw: a frame is being taken.
    AcquiringFrame,
    /// Draw: the commands of the frame are being submitted.
    Submitting,
}

impl Task {
    /// The task belongs to a first setup.
    pub open spec fn is_first_setup(self) -> bool {
        ||| self is CreatingSurface
        ||| self is RequestingAdapter
        ||| self is RequestingDevice
        ||| self is CreatingVertexModule
        ||| self is CreatingFragmentModule
        ||| self is CreatingPipelineLayout
        ||| self is CreatingRenderPipeline
        ||| self is MeasuringWindow
        ||| self is CreatingSwapChain
    }

    /// The task belongs to a setup that restores the surface.
    pub open spec fn is_restoring(self) -> bool {
        self is RestoringSurface || self is RestoringSwapChain
    }

    /// The number of replies that the operation under way still needs, where
    /// the provider fails at nothing.
    pub open spec fn replies_awaited(self) -> nat {
        match self {
            Task::Idle => 0,
            Task::CreatingSurface { .. } => 9,
            Task::RequestingAdapter { .. } => 8,
            Task::RequestingDevice { .. } => 7,
            Task::CreatingVertexModule { .. } => 6,
            Task::CreatingFragmentModule { .. } => 5,
            Task::CreatingPipelineLayout { .. } => 4,
            Task::CreatingRenderPipeline { .. } => 3,
            Task::MeasuringWindow { .. } => 2,
            Task::CreatingSwapChain { .. } => 1,
            Task::RestoringSurface => 2,
            Task::RestoringSwapChain { .. } => 1,
            Task::Resizing { .. } => 1,
            Task::Dropping => 1,
            Task::AcquiringFrame => 2,
            Task::Submitting => 1,
        }
    }

    /// The task belongs to an operation on a surface that exists.
    pub open spec fn uses_surface(self) -> bool {
        self is Resizing || self is Dropping || self is AcquiringFrame || self is Submitting
    }
}

/// An operation of the lifecycle, as a value.
#[derive(Clone, Copy, Debug, PartialEq, Eq, Structural)]
pub enum Operation {
    Setup,
    CleanSurface,
    Resize { width: u32, height: u32 },
    Draw,
}

/// Anything that the lifecycle takes: the start of an operation, or a reply
/// of the provider.
#[derive(Clone, Copy, Debug, PartialEq, Eq, Structural)]
pub enum Input {
    Begin { operation: Operation, window: Option<Handle>, format: TextureFormat },
    Reply(Reply),
}

impl Input {
    /// The input starts a setup while no native window is at hand.
    pub open spec fn is_setup_without_window(self) -> bool {
        self matches Input::Begin { operation, window, .. } && operation is Setup && window is None
    }

    /// The input starts a draw.
    pub open spec fn is_draw(self) -> bool {
        self matches Input::Begin { operation, .. } && operation is Draw
    }
}

/// The state of the lifecycle.
#[derive(Clone, Copy, Debug, PartialEq, Eq, Structural)]
pub struct Lifecycle {
    /// The provider's entry point, from which surfaces and adapters come.
    pub instance: Handle,
    pub stage: WgpuStage,
    pub task: Task,
}

impl Lifecycle {
    /// The state at the start: nothing made, nothing under way.
    pub open spec fn initial(instance: Handle) -> Lifecycle {
        Lifecycle { instance, stage: WgpuStage::Init, task: Task::Idle }
    }

    /// The stage is well formed, and the operation under way fits it: a first
    /// setup runs before the stage is ready, a restoring setup while the
    /// surface is absent, the other operations while it is present.
    pub open spec fn wf(self) -> bool {
        &&& self.stage.wf()
        &&& self.task.is_first_setup() ==> self.stage is Init
        &&& self.task.is_restoring() ==> self.stage.lacks_surface()
        &&& self.task.uses_surface() ==> self.stage.has_surface()
    }

    /// This state with another task.
    pub open spec fn with_task(self, task: Task) -> Lifecycle {
        Lifecycle { task, ..self }
    }

    /// This state with the operation ended and the stage it has reached.
    pub open spec fn completed(self, inner: InnerContext) -> Lifecycle {
        Lifecycle { stage: WgpuStage::Ready(inner), task: Task::Idle, ..self }
    }

    /// Setup: makes what is missing, as far as a window is at hand.
    ///
    /// `window` is the native window, if there is one. Before the stage is
    /// ready a window starts the first setup, which begins with the surface
    /// and makes everything for `format`. In the ready stage a window starts
    /// the restoring of an absent surface; the format stays the one of the
    /// first setup. Otherwise there is nothing to do.
    pub open spec fn setup(self, window: Option<Handle>, format: TextureFormat) -> (Lifecycle, Step) {
        if !(self.task is Idle) {
            (self, Step::Refused(Refusal::Busy))
        } else if self.stage.has_surface() {
            (self, Step::Skipped(Skip::SurfacePresent))
        } else {
            match window {
                None => (self, Step::Skipped(Skip::NoWindow)),
                Some(window) => (
                    self.with_task(
                        match self.stage {
                            WgpuStage::Init => Task::CreatingSurface { window, format },
                            WgpuStage::Ready(_) => Task::RestoringSurface,
                        },
                    ),
                    Step::Perform(Request::CreateSurface { instance: self.instance, window }),
                ),
            }
        }
    }

    /// Teardown: throws away the surface and its swap chain, where there are
    /// any. Device and pipeline stay.
    pub open spec fn clean_surface(self) -> (Lifecycle, Step) {
        if !(self.task is Idle) {
            (self, Step::Refused(Refusal::Busy))
        } else {
            match self.stage {
                WgpuStage::Init => (self, Step::Skipped(Skip::Uninitialized)),
                WgpuStage::Ready(inner) => match (inner.surface, inner.swap_chain) {
                    (Some(surface), Some(swap_chain)) => (
                        self.with_task(Task::Dropping),
                        Step::Perform(Request::DropSurface { surface, swap_chain }),
                    ),
                    _ => (self, Step::Skipped(Skip::NoSurface)),
                },
            }
        }
    }

    /// Resize: makes the swap chain anew in the given size, where a surface
    /// exists, in place of the one that the stage holds. The swap chain is
    /// made anew whether the size has changed or not. Without a surface the
    /// size is dropped.
    pub open spec fn resize(self, width: u32, height: u32) -> (Lifecycle, Step) {
        if !(self.task is Idle) {
            (self, Step::Refused(Refusal::Busy))
        } else {
            match self.stage {
                WgpuStage::Init => (self, Step::Skipped(Skip::Uninitialized)),
                WgpuStage::Ready(inner) => match inner.surface {
                    Some(surface) => {
                        let sc_desc = resized(inner.sc_desc, width, height);
                        (
                            self.with_task(Task::Resizing { sc_desc }),
                            Step::Perform(
                                Request::CreateSwapChain {
                                    device: inner.device,
                                    surface,
                                    descriptor: sc_desc,
                                    replaces: inner.swap_chain,
                                },
                            ),
                        )
                    },
                    None => (self, Step::Skipped(Skip::NoSurface)),
                },
            }
        }
    }

    /// Draw: takes a frame of the swap chain, where there is one.
    pub open spec fn draw(self) -> (Lifecycle, Step) {
        if !(self.task is Idle) {
            (self, Step::Refused(Refusal::Busy))
        } else {
            match self.stage {
                WgpuStage::Init => (self, Step::Skipped(Skip::Uninitialized)),
                WgpuStage::Ready(inner) => match (inner.surface, inner.swap_chain) {
                    (Some(_), Some(swap_chain)) => (
                        self.with_task(Task::AcquiringFrame),
                        Step::Perform(Request::AcquireFrame { swap_chain }),
                    ),
                    _ => (self, Step::Skipped(Skip::NoSurface)),
                },
            }
        }
    }

    /// Starts the operation that `operation` names. Only setup looks at
    /// `window` and `format`.
    pub open spec fn begin(self, operation: Operation, window: Option<Handle>, format: TextureFormat) -> (
        Lifecycle,
        Step,
    ) {
        match operation {
            Operation::Setup => self.setup(window, format),
            Operation::CleanSurface => self.clean_surface(),
            Operation::Resize { width, height } => self.resize(width, height),
            Operation::Draw => self.draw(),
        }
    }

    /// What the lifecycle does with an input.
    pub open spec fn take(self, input: Input) -> (Lifecycle, Step) {
        match input {
            Input::Begin { operation, window, format } => self.begin(operation, window, format),
            Input::Reply(reply) => self.resume(reply),
        }
    }

    /// The state after an input.
    pub open spec fn after(self, input: Input) -> Lifecycle {
        self.take(input).0
    }

    /// The state after a sequence of inputs, taken in order.
    pub open spec fn after_all(self, inputs: Seq<Input>) -> Lifecycle
        decreases inputs.len(),
    {
        if inputs.len() == 0 {
            self
        } else {
            self.after_all(inputs.drop_last()).after(inputs.last())
        }
    }

    /// The reply is turned away.
    pub open spec fn unexpected(self) -> (Lifecycle, Step) {
        (self, Step::Refused(Refusal::Unexpected))
    }

    /// The operation under way fails for good: it is over, and the stage is
    /// as it was before the operation began.
    pub open spec fn failed(self, failure: Failure) -> (Lifecycle, Step) {
        (self.with_task(Task::Idle), Step::Fatal(failure))
    }

    /// The operation under way goes on with `task` and asks for `request`.
    pub open spec fn proceed(self, task: Task, request: Request) -> (Lifecycle, Step) {
        (self.with_task(task), Step::Perform(request))
    }

    /// Takes up the first setup with the provider's reply.
    ///
    /// The provider is asked, in this order, for the surface, an adapter that
    /// fits it, the device, the two shader modules, the pipeline layout, the
    /// render pipeline, the size of the window and the swap chain. With the
    /// swap chain the stage becomes ready. A missing adapter or device is
    /// fatal.
    pub open spec fn resume_first_setup(self, reply: Reply) -> (Lifecycle, Step) {
        match (self.task, reply) {
            (Task::CreatingSurface { window, format }, Reply::Surface(surface)) => self.proceed(
                Task::RequestingAdapter { window, format, surface },
                Request::RequestAdapter {
                    instance: self.instance,
                    options: adapter_options_for(surface),
                },
            ),
            (Task::RequestingAdapter { window, format, surface }, Reply::Adapter(Some(adapter))) => self.proceed(
                Task::RequestingDevice { window, format, surface, adapter },
                Request::RequestDevice { adapter, descriptor: plain_device() },
            ),
            (Task::RequestingAdapter { .. }, Reply::Adapter(None)) => self.failed(Failure::NoAdapter),
            (
                Task::RequestingDevice { window, format, surface, adapter },
                Reply::Device(Some(made)),
            ) => self.proceed(
                Task::CreatingVertexModule {
                    window,
                    format,
                    surface,
                    adapter,
                    device: made.device,
                    queue: made.queue,
                },
                Request::CreateShaderModule { device: made.device, stage: ShaderStage::Vertex },
            ),
            (Task::RequestingDevice { .. }, Reply::Device(None)) => self.failed(Failure::NoDevice),
            (
                Task::CreatingVertexModule { window, format, surface, adapter, device, queue },
                Reply::ShaderModule(vs_module),
            ) => self.proceed(
                Task::CreatingFragmentModule {
                    window,
                    format,
                    surface,
                    adapter,
                    device,
                    queue,
                    vs_module,
                },
                Request::CreateShaderModule { device, stage: ShaderStage::Fragment },
            ),
            (
                Task::CreatingFragmentModule {
                    window,
                    format,
                    surface,
                    adapter,
                    device,
                    queue,
                    vs_module,
                },
                Reply::ShaderModule(fs_module),
            ) => self.proceed(
                Task::CreatingPipelineLayout {
                    window,
                    format,
                    surface,
                    adapter,
                    device,
                    queue,
                    vs_module,
                    fs_module,
                },
                Request::CreatePipelineLayout { device, descriptor: empty_layout() },
            ),
            (
                Task::CreatingPipelineLayout {
                    window,
                    format,
                    surface,
                    adapter,
                    device,
                    queue,
                    vs_module,
                    fs_module,
                },
                Reply::PipelineLayout(pipeline_layout),
            ) => self.proceed(
                Task::CreatingRenderPipeline {
                    window,
                    format,
                    surface,
                    adapter,
                    device,
                    queue,
                    vs_module,
                    fs_module,
                    pipeline_layout,
                },
                Request::CreateRenderPipeline {
                    device,
                    descriptor: triangle_pipeline(pipeline_layout, vs_module, fs_module, format),
                },
            ),
            (
                Task::CreatingRenderPipeline {
                    window,
                    format,
                    surface,
                    adapter,
                    device,
                    queue,
                    vs_module,
                    fs_module,
                    pipeline_layout,
                },
                Reply::RenderPipeline(render_pipeline),
            ) => self.proceed(
                Task::MeasuringWindow {
                    format,
                    surface,
                    adapter,
                    device,
                    queue,
                    vs_module,
                    fs_module,
                    pipeline_layout,
                    render_pipeline,
                },
                Request::WindowSize { window },
            ),
            (
                Task::MeasuringWindow {
                    format,
                    surface,
                    adapter,
                    device,
                    queue,
                    vs_module,
                    fs_module,
                    pipeline_layout,
                    render_pipeline,
                },
                Reply::WindowSize { width, height },
            ) => {
                let sc_desc = window_swap_chain(format, width, height);
                self.proceed(
                    Task::CreatingSwapChain {
                        surface,
                        adapter,
                        device,
                        queue,
                        vs_module,
                        fs_module,
                        pipeline_layout,
                        render_pipeline,
                        sc_desc,
                    },
                    Request::CreateSwapChain { device, surface, descriptor: sc_desc, replaces: None },
                )
            },
            (
                Task::CreatingSwapChain {
                    surface,
                    adapter,
                    device,
                    queue,
                    vs_module,
                    fs_module,
                    pipeline_layout,
                    render_pipeline,
                    sc_desc,
                },
                Reply::SwapChain(swap_chain),
            ) => (
                self.completed(
                    InnerContext {
                        surface: Some(surface),
                        adapter,
                        device,
                        queue,
                        vs_module,
                        fs_module,
                        pipeline_layout,
                        render_pipeline,
                        sc_desc,
                        swap_chain: Some(swap_chain),
                    },
                ),
                Step::Done,
            ),
            _ => self.unexpected(),
        }
    }

    /// Takes up an operation of the ready stage with the provider's reply.
    ///
    /// A restored surface gets a swap chain made from the descriptor that the
    /// stage holds, and both enter the stage together. A resize enters the
    /// stage with its new swap chain. A teardown leaves the stage without
    /// surface and swap chain. A draw submits, for the frame it got, the pass
    /// of [`triangle_pass`]; a frame that cannot be had is fatal.
    pub open spec fn resume_ready(self, inner: InnerContext, reply: Reply) -> (Lifecycle, Step) {
        match (self.task, reply) {
            (Task::RestoringSurface, Reply::Surface(surface)) => self.proceed(
                Task::RestoringSwapChain { surface },
                Request::CreateSwapChain {
                    device: inner.device,
                    surface,
                    descriptor: inner.sc_desc,
                    replaces: None,
                },
            ),
            (Task::RestoringSwapChain { surface }, Reply::SwapChain(swap_chain)) => (
                self.completed(inner.with_surface(surface, swap_chain)),
                Step::Done,
            ),
            (Task::Resizing { sc_desc }, Reply::SwapChain(swap_chain)) => (
                self.completed(inner.with_swap_chain(sc_desc, swap_chain)),
                Step::Done,
            ),
            (Task::Dropping, Reply::Dropped) => (self.completed(inner.without_surface()), Step::Done),
            (Task::AcquiringFrame, Reply::Frame(Some(frame))) => self.proceed(
                Task::Submitting,
                Request::Submit {
                    device: inner.device,
                    queue: inner.queue,
                    pass: triangle_pass(frame, inner.render_pipeline),
                },
            ),
            (Task::AcquiringFrame, Reply::Frame(None)) => self.failed(Failure::NoFrame),
            (Task::Submitting, Reply::Submitted) => (self.with_task(Task::Idle), Step::Done),
            _ => self.unexpected(),
        }
    }

    /// Takes up the operation under way with the provider's reply.
    ///
    /// A reply that does not answer the open request is turned away, and so is
    /// any reply while no operation is under way.
    pub open spec fn resume(self, reply: Reply) -> (Lifecycle, Step) {
        match self.stage {
            WgpuStage::Init => self.resume_first_setup(reply),
            WgpuStage::Ready(inner) => if self.task.is_first_setup() {
                self.unexpected()
            } else {
                self.resume_ready(inner, reply)
            },
        }
    }
}

} // verus!
