//! The lifecycle as a value that a program holds and feeds.
//!
//! A [`WgpuContext`] keeps a [`Lifecycle`] that is well formed at all times.
//! Each operation changes it as the function of the same name in
//! [`Lifecycle`] says, and returns the [`Step`] of that function.

use crate::lifecycle::{Lifecycle, Operation, Task};
use crate::provider::{Failure, Refusal, Reply, Request, Skip, Step};
use crate::resource::{
    adapter_options, device_descriptor, pipeline_layout_descriptor, render_pass,
    render_pipeline_descriptor, swap_chain_descriptor, with_size, Handle, ShaderStage,
    SwapChainDescriptor, TextureFormat,
};
use crate::stage::{InnerContext, WgpuStage};
use vstd::prelude::*;

verus! {

/// The lifecycle of one surface and of the resources behind it.
pub struct WgpuContext {
    instance: Handle,
    stage: WgpuStage,
    task: Task,
}

impl View for WgpuContext {
    type V = Lifecycle;

    closed spec fn view(&self) -> Lifecycle {
        Lifecycle { instance: self.instance, stage: self.stage, task: self.task }
    }
}

fn proceed(state: Lifecycle, task: Task, request: Request) -> (next: (Lifecycle, Step))
    ensures
        next == state.proceed(task, request),
{
    (Lifecycle { instance: state.instance, stage: state.stage, task }, Step::Perform(request))
}

fn failed(state: Lifecycle, failure: Failure) -> (next: (Lifecycle, Step))
    ensures
        next == state.failed(failure),
{
    (Lifecycle { instance: state.instance, stage: state.stage, task: Task::Idle }, Step::Fatal(failure))
}

fn completed(state: Lifecycle, inner: InnerContext) -> (next: (Lifecycle, Step))
    ensures
        next == (state.completed(inner), Step::Done),
{
    (
        Lifecycle { instance: state.instance, stage: WgpuStage::Ready(inner), task: Task::Idle },
        Step::Done,
    )
}

fn resume_first_setup(state: Lifecycle, reply: Reply) -> (next: (Lifecycle, Step))
    ensures
        next == state.resume_first_setup(reply),
{
    match (state.task, reply) {
        (Task::CreatingSurface { window, format }, Reply::Surface(surface)) => proceed(
            state,
            Task::RequestingAdapter { window, format, surface },
            Request::RequestAdapter { instance: state.instance, options: adapter_options(surface) },
        ),
        (Task::RequestingAdapter { window, format, surface }, Reply::Adapter(Some(adapter))) => proceed(
            state,
            Task::RequestingDevice { window, format, surface, adapter },
            Request::RequestDevice { adapter, descriptor: device_descriptor() },
        ),
        (Task::RequestingAdapter { .. }, Reply::Adapter(None)) => failed(state, Failure::NoAdapter),
        (Task::RequestingDevice { window, format, surface, adapter }, Reply::Device(Some(made))) => proceed(
            state,
            Task::CreatingVertexModule {
                window,
                format,
                surface,
                adapter,
                device: made.device,
                queue: made.queue,
            },
            Request::CreateShaderModule { device: made.device, stage: ShaderStage::Vertex },
        ),
        (Task::RequestingDevice { .. }, Reply::Device(None)) => failed(state, Failure::NoDevice),
        (
            Task::CreatingVertexModule { window, format, surface, adapter, device, queue },
            Reply::ShaderModule(vs_module),
        ) => proceed(
            state,
            Task::CreatingFragmentModule { window, format, surface, adapter, device, queue, vs_module },
            Request::CreateShaderModule { device, stage: ShaderStage::Fragment },
        ),
        (
            Task::CreatingFragmentModule { window, format, surface, adapter, device, queue, vs_module },
            Reply::ShaderModule(fs_module),
        ) => proceed(
            state,
            Task::CreatingPipelineLayout {
                window,
                format,
                surface,
                adapter,
                device,
                queue,
                vs_module,
                fs_module,
            },
            Request::CreatePipelineLayout { device, descriptor: pipeline_layout_descriptor() },
        ),
        (
            Task::CreatingPipelineLayout {
                window,
                format,
                surface,
                adapter,
                device,
                queue,
                vs_module,
                fs_module,
            },
            Reply::PipelineLayout(pipeline_layout),
        ) => proceed(
            state,
            Task::CreatingRenderPipeline {
                window,
                format,
                surface,
                adapter,
                device,
                queue,
                vs_module,
                fs_module,
                pipeline_layout,
            },
            Request::CreateRenderPipeline {
                device,
                descriptor: render_pipeline_descriptor(pipeline_layout, vs_module, fs_module, format),
            },
        ),
        (
            Task::CreatingRenderPipeline {
                window,
                format,
                surface,
                adapter,
                device,
                queue,
                vs_module,
                fs_module,
                pipeline_layout,
            },
            Reply::RenderPipeline(render_pipeline),
        ) => proceed(
            state,
            Task::MeasuringWindow {
                format,
                surface,
                adapter,
                device,
                queue,
                vs_module,
                fs_module,
                pipeline_layout,
                render_pipeline,
            },
            Request::WindowSize { window },
        ),
        (
            Task::MeasuringWindow {
                format,
                surface,
                adapter,
                device,
                queue,
                vs_module,
                fs_module,
                pipeline_layout,
                render_pipeline,
            },
            Reply::WindowSize { width, height },
        ) => {
            let sc_desc = swap_chain_descriptor(format, width, height);
            proceed(
                state,
                Task::CreatingSwapChain {
                    surface,
                    adapter,
                    device,
                    queue,
                    vs_module,
                    fs_module,
                    pipeline_layout,
                    render_pipeline,
                    sc_desc,
                },
                Request::CreateSwapChain { device, surface, descriptor: sc_desc, replaces: None },
            )
        },
        (
            Task::CreatingSwapChain {
                surface,
                adapter,
                device,
                queue,
                vs_module,
                fs_module,
                pipeline_layout,
                render_pipeline,
                sc_desc,
            },
            Reply::SwapChain(swap_chain),
        ) => completed(
            state,
            InnerContext {
                surface: Some(surface),
                adapter,
                device,
                queue,
                vs_module,
                fs_module,
                pipeline_layout,
                render_pipeline,
                sc_desc,
                swap_chain: Some(swap_chain),
            },
        ),
        _ => (state, Step::Refused(Refusal::Unexpected)),
    }
}

fn with_swap_chain(inner: InnerContext, sc_desc: SwapChainDescriptor, swap_chain: Handle) -> (next:
    InnerContext)
    ensures
        next == inner.with_swap_chain(sc_desc, swap_chain),
{
    InnerContext {
        surface: inner.surface,
        adapter: inner.adapter,
        device: inner.device,
        queue: inner.queue,
        vs_module: inner.vs_module,
        fs_module: inner.fs_module,
        pipeline_layout: inner.pipeline_layout,
        render_pipeline: inner.render_pipeline,
        sc_desc,
        swap_chain: Some(swap_chain),
    }
}

fn with_surface(inner: InnerContext, surface: Option<Handle>, swap_chain: Option<Handle>) -> (next:
    InnerContext)
    ensures
        next == (InnerContext { surface, swap_chain, ..inner }),
{
    InnerContext {
        surface,
        adapter: inner.adapter,
        device: inner.device,
        queue: inner.queue,
        vs_module: inner.vs_module,
        fs_module: inner.fs_module,
        pipeline_layout: inner.pipeline_layout,
        render_pipeline: inner.render_pipeline,
        sc_desc: inner.sc_desc,
        swap_chain,
    }
}

fn resume_ready(state: Lifecycle, inner: InnerContext, reply: Reply) -> (next: (Lifecycle, Step))
    ensures
        next == state.resume_ready(inner, reply),
{
    match (state.task, reply) {
        (Task::RestoringSurface, Reply::Surface(surface)) => proceed(
            state,
            Task::RestoringSwapChain { surface },
            Request::CreateSwapChain {
                device: inner.device,
                surface,
                descriptor: inner.sc_desc,
                replaces: None,
            },
        ),
        (Task::RestoringSwapChain { surface }, Reply::SwapChain(swap_chain)) => completed(
            state,
            with_surface(inner, Some(surface), Some(swap_chain)),
        ),
        (Task::Resizing { sc_desc }, Reply::SwapChain(swap_chain)) => completed(
            state,
            with_swap_chain(inner, sc_desc, swap_chain),
        ),
        (Task::Dropping, Reply::Dropped) => completed(state, with_surface(inner, None, None)),
        (Task::AcquiringFrame, Reply::Frame(Some(frame))) => proceed(
            state,
            Task::Submitting,
            Request::Submit {
                device: inner.device,
                queue: inner.queue,
                pass: render_pass(frame, inner.render_pipeline),
            },
        ),
        (Task::AcquiringFrame, Reply::Frame(None)) => failed(state, Failure::NoFrame),
        (Task::Submitting, Reply::Submitted) => (
            Lifecycle { instance: state.instance, stage: state.stage, task: Task::Idle },
            Step::Done,
        ),
        _ => (state, Step::Refused(Refusal::Unexpected)),
    }
}

fn is_first_setup(task: &Task) -> (b: bool)
    ensures
        b == task.is_first_setup(),
{
    match task {
        Task::CreatingSurface { .. } => true,
        Task::RequestingAdapter { .. } => true,
        Task::RequestingDevice { .. } => true,
        Task::CreatingVertexModule { .. } => true,
        Task::CreatingFragmentModule { .. } => true,
        Task::CreatingPipelineLayout { .. } => true,
        Task::CreatingRenderPipeline { .. } => true,
        Task::MeasuringWindow { .. } => true,
        Task::CreatingSwapChain { .. } => true,
        _ => false,
    }
}

fn is_idle(task: &Task) -> (b: bool)
    ensures
        b == (*task is Idle),
{
    match task {
        Task::Idle => true,
        _ => false,
    }
}

impl WgpuContext {
    /// What holds of every context at all times: its state is well formed.
    #[verifier::type_invariant]
    pub open spec fn well_formed(self) -> bool {
        self@.wf()
    }

    /// A lifecycle at its start, for the given entry point of the provider.
    pub fn new(instance: Handle) -> (context: WgpuContext)
        ensures
            context@ == Lifecycle::initial(instance),
    {
        WgpuContext { instance, stage: WgpuStage::Init, task: Task::Idle }
    }

    /// The state of the lifecycle.
    pub fn state(&self) -> (state: Lifecycle)
        ensures
            state == self@,
            state.wf(),
    {
        proof {
            use_type_invariant(self);
        }
        Lifecycle { instance: self.instance, stage: self.stage, task: self.task }
    }

    /// The provider's entry point.
    pub fn instance(&self) -> (instance: Handle)
        ensures
            instance == self@.instance,
    {
        self.instance
    }

    /// Where the lifecycle stands.
    pub fn stage(&self) -> (stage: WgpuStage)
        ensures
            stage == self@.stage,
            stage.wf(),
    {
        proof {
            use_type_invariant(self);
        }
        self.stage
    }

    /// The operation under way.
    pub fn task(&self) -> (task: Task)
        ensures
            task == self@.task,
    {
        self.task
    }

    /// Whether no operation is under way.
    pub fn is_idle(&self) -> (b: bool)
        ensures
            b == (self@.task is Idle),
    {
        is_idle(&self.task)
    }

    fn install(&mut self, next: Lifecycle)
        requires
            next.wf(),
            next.instance == old(self)@.instance,
        ensures
            final(self)@ == next,
    {
        *self = WgpuContext { instance: next.instance, stage: next.stage, task: next.task };
    }

    /// Setup: makes what is missing, as far as a window is at hand.
    ///
    /// `window` names the native window, or is `None` where there is none;
    /// `format` is the pixel format that a first setup makes everything for.
    /// The call may be repeated at any time: where nothing is missing, or no
    /// window is at hand, it changes nothing.
    pub fn setup(&mut self, window: Option<Handle>, format: TextureFormat) -> (step: Step)
        ensures
            (final(self)@, step) == old(self)@.setup(window, format),
            final(self)@.wf(),
    {
        proof {
            use_type_invariant(&*self);
        }
        if !is_idle(&self.task) {
            return Step::Refused(Refusal::Busy);
        }
        let restoring = match self.stage {
            WgpuStage::Init => false,
            WgpuStage::Ready(inner) => {
                if inner.surface.is_some() {
                    return Step::Skipped(Skip::SurfacePresent);
                }
                true
            },
        };
        match window {
            None => Step::Skipped(Skip::NoWindow),
            Some(window) => {
                let task = if restoring {
                    Task::RestoringSurface
                } else {
                    Task::CreatingSurface { window, format }
                };
                let instance = self.instance;
                self.install(Lifecycle { instance, stage: self.stage, task });
                Step::Perform(Request::CreateSurface { instance, window })
            },
        }
    }

    /// Teardown: throws away the surface and its swap chain, where there are
    /// any. Device and pipeline stay.
    pub fn clean_surface(&mut self) -> (step: Step)
        ensures
            (final(self)@, step) == old(self)@.clean_surface(),
            final(self)@.wf(),
    {
        proof {
            use_type_invariant(&*self);
        }
        if !is_idle(&self.task) {
            return Step::Refused(Refusal::Busy);
        }
        match self.stage {
            WgpuStage::Init => Step::Skipped(Skip::Uninitialized),
            WgpuStage::Ready(inner) => match (inner.surface, inner.swap_chain) {
                (Some(surface), Some(swap_chain)) => {
                    self.install(
                        Lifecycle { instance: self.instance, stage: self.stage, task: Task::Dropping },
                    );
                    Step::Perform(Request::DropSurface { surface, swap_chain })
                },
                _ => Step::Skipped(Skip::NoSurface),
            },
        }
    }

    /// Resize: makes the swap chain anew in the given size, where a surface
    /// exists. Without a surface nothing happens and the size is dropped.
    pub fn resize(&mut self, width: u32, height: u32) -> (step: Step)
        ensures
            (final(self)@, step) == old(self)@.resize(width, height),
            final(self)@.wf(),
    {
        proof {
            use_type_invariant(&*self);
        }
        if !is_idle(&self.task) {
            return Step::Refused(Refusal::Busy);
        }
        match self.stage {
            WgpuStage::Init => Step::Skipped(Skip::Uninitialized),
            WgpuStage::Ready(inner) => match inner.surface {
                Some(surface) => {
                    let sc_desc = with_size(inner.sc_desc, width, height);
                    self.install(
                        Lifecycle {
                            instance: self.instance,
                            stage: self.stage,
                            task: Task::Resizing { sc_desc },
                        },
                    );
                    Step::Perform(
                        Request::CreateSwapChain {
                            device: inner.device,
                            surface,
                            descriptor: sc_desc,
                            replaces: inner.swap_chain,
                        },
                    )
                },
                None => Step::Skipped(Skip::NoSurface),
            },
        }
    }

    /// Draw: renders one frame, where a surface exists. Before the stage is
    /// ready, and while the surface is absent, nothing is asked of the
    /// provider.
    pub fn draw(&mut self) -> (step: Step)
        ensures
            (final(self)@, step) == old(self)@.draw(),
            final(self)@.wf(),
    {
        proof {
            use_type_invariant(&*self);
        }
        if !is_idle(&self.task) {
            return Step::Refused(Refusal::Busy);
        }
        match self.stage {
            WgpuStage::Init => Step::Skipped(Skip::Uninitialized),
            WgpuStage::Ready(inner) => match (inner.surface, inner.swap_chain) {
                (Some(_), Some(swap_chain)) => {
                    self.install(
                        Lifecycle {
                            instance: self.instance,
                            stage: self.stage,
                            task: Task::AcquiringFrame,
                        },
                    );
                    Step::Perform(Request::AcquireFrame { swap_chain })
                },
                _ => Step::Skipped(Skip::NoSurface),
            },
        }
    }

    /// Starts the operation that `operation` names. Only setup looks at
    /// `window` and `format`.
    pub fn begin(&mut self, operation: Operation, window: Option<Handle>, format: TextureFormat) -> (step:
        Step)
        ensures
            (final(self)@, step) == old(self)@.begin(operation, window, format),
            final(self)@.wf(),
    {
        match operation {
            Operation::Setup => self.setup(window, format),
            Operation::CleanSurface => self.clean_surface(),
            Operation::Resize { width, height } => self.resize(width, height),
            Operation::Draw => self.draw(),
        }
    }

    /// Takes up the operation under way with the provider's reply.
    pub fn resume(&mut self, reply: Reply) -> (step: Step)
        ensures
            (final(self)@, step) == old(self)@.resume(reply),
            final(self)@.wf(),
    {
        proof {
            use_type_invariant(&*self);
        }
        let state = Lifecycle { instance: self.instance, stage: self.stage, task: self.task };
        let next = match self.stage {
            WgpuStage::Init => resume_first_setup(state, reply),
            WgpuStage::Ready(inner) => {
                if is_first_setup(&self.task) {
                    (state, Step::Refused(Refusal::Unexpected))
                } else {
                    resume_ready(state, inner, reply)
                }
            },
        };
        self.install(next.0);
        next.1
    }
}

} // verus!
