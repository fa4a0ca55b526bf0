//! What holds of the lifecycle whatever the host and the provider do.

use crate::event_loop::{control_flow_for, operations_for, ControlFlow, Event, Session, Turn};
use crate::lifecycle::{Input, Lifecycle, Operation, Task};
use crate::provider::{DeviceQueue, Refusal, Reply, Request, Skip, Step};
use crate::resource::{
    adapter_options_for, empty_layout, plain_device, resized, triangle_pass, triangle_pipeline,
    window_swap_chain, Handle, ShaderStage, TextureFormat,
};
use crate::stage::{InnerContext, WgpuStage};
use vstd::prelude::*;

verus! {

/// No input leads out of the well-formed states: a swap chain exists exactly
/// when a surface does, and the operation under way fits the stage.
pub proof fn law_well_formed_is_kept(state: Lifecycle, input: Input)
    requires
        state.wf(),
    ensures
        state.after(input).wf(),
{
}

/// No input changes the entry point of the provider.
pub proof fn law_instance_is_kept(state: Lifecycle, input: Input)
    ensures
        state.after(input).instance == state.instance,
{
}

/// Every state that inputs lead to from the start is well formed.
pub proof fn law_reachable_is_well_formed(instance: Handle, inputs: Seq<Input>)
    ensures
        Lifecycle::initial(instance).after_all(inputs).wf(),
    decreases inputs.len(),
{
    if inputs.len() > 0 {
        law_reachable_is_well_formed(instance, inputs.drop_last());
        law_well_formed_is_kept(
            Lifecycle::initial(instance).after_all(inputs.drop_last()),
            inputs.last(),
        );
    }
}

/// One operation at a time: while an operation is under way, the start of
/// another is refused and changes nothing.
pub proof fn law_one_operation_at_a_time(
    state: Lifecycle,
    operation: Operation,
    window: Option<Handle>,
    format: TextureFormat,
)
    requires
        !(state.task is Idle),
    ensures
        state.begin(operation, window, format) == (state, Step::Refused(Refusal::Busy)),
{
}

/// An operation that is refused or has nothing to do changes nothing.
pub proof fn law_no_step_no_change(state: Lifecycle, input: Input)
    requires
        state.take(input).1 is Refused || state.take(input).1 is Skipped,
    ensures
        state.after(input) == state,
{
}

/// The stage changes only when an operation completes: a step that asks for
/// the provider, or fails, leaves the stage as it was.
pub proof fn law_stage_changes_on_completion(state: Lifecycle, input: Input)
    requires
        !(state.take(input).1 is Done),
    ensures
        state.after(input).stage == state.stage,
{
}

/// A reply is taken exactly when it is of the kind that answers the request
/// that was handed out last.
pub proof fn law_reply_in_kind_is_taken(state: Lifecycle, input: Input, request: Request, reply: Reply)
    requires
        state.take(input).1 == Step::Perform(request),
    ensures
        request.is_answered_by(reply) <==> !(state.after(input).resume(reply).1 is Refused),
{
}

/// A request is open exactly while an operation is under way: a step that
/// asks for the provider leaves a task behind, and every other step that is
/// taken leaves none.
pub proof fn law_request_is_open_while_busy(state: Lifecycle, input: Input)
    requires
        state.wf(),
        !(state.take(input).1 is Refused),
    ensures
        state.take(input).1 is Perform <==> !(state.after(input).task is Idle),
{
}

/// Every operation comes to an end: each reply that is taken brings the
/// operation under way closer to it, and a first setup needs nine replies at
/// most.
pub proof fn law_operation_ends(state: Lifecycle, reply: Reply)
    requires
        !(state.resume(reply).1 is Refused),
    ensures
        state.resume(reply).0.task.replies_awaited() < state.task.replies_awaited(),
        state.task.replies_awaited() <= 9,
        state.resume(reply).1 is Perform || state.resume(reply).0.task is Idle,
{
}

/// Adapter, device and pipeline are made once: in the ready stage the
/// provider is never asked for any of them again.
pub proof fn law_device_is_made_once(state: Lifecycle, input: Input, request: Request)
    requires
        state.stage is Ready,
        state.take(input).1 == Step::Perform(request),
    ensures
        !request.makes_device(),
{
}

/// Setup without a native window changes nothing, and asks nothing of the
/// provider.
pub proof fn law_setup_without_window(state: Lifecycle, format: TextureFormat)
    ensures
        state.setup(None, format).0 == state,
        !(state.setup(None, format).1 is Perform),
        !(state.setup(None, format).1 is Fatal),
{
}

/// However often setup runs without a native window, a lifecycle that has
/// not reached the ready stage stays as it is.
pub proof fn law_setups_without_window_stay_init(state: Lifecycle, inputs: Seq<Input>)
    requires
        state.stage is Init,
        forall|i: int| 0 <= i < inputs.len() ==> (#[trigger] inputs[i]).is_setup_without_window(),
    ensures
        state.after_all(inputs) == state,
        state.after_all(inputs).stage is Init,
    decreases inputs.len(),
{
    if inputs.len() > 0 {
        law_setups_without_window_stay_init(state, inputs.drop_last());
        assert(inputs.last() == inputs[inputs.len() - 1]);
        assert(inputs.last().is_setup_without_window());
    }
}

/// The ready stage is never left, and its adapter, device, queue, shader
/// modules, pipeline layout and pipeline are never replaced.
pub proof fn law_device_is_kept_by_input(state: Lifecycle, inner: InnerContext, input: Input)
    requires
        state.stage == WgpuStage::Ready(inner),
    ensures
        state.after(input).stage is Ready,
        state.after(input).stage->Ready_0.same_device(inner),
{
}

/// Once the stage is ready it stays ready through any inputs, with the same
/// adapter, device, queue, shader modules, pipeline layout and pipeline.
pub proof fn law_device_is_kept(state: Lifecycle, inner: InnerContext, inputs: Seq<Input>)
    requires
        state.stage == WgpuStage::Ready(inner),
    ensures
        state.after_all(inputs).stage is Ready,
        state.after_all(inputs).stage->Ready_0.same_device(inner),
    decreases inputs.len(),
{
    if inputs.len() > 0 {
        law_device_is_kept(state, inner, inputs.drop_last());
        let before = state.after_all(inputs.drop_last());
        law_device_is_kept_by_input(before, before.stage->Ready_0, inputs.last());
    }
}

/// A first setup that the provider answers throughout asks for the surface,
/// the adapter, the device, the vertex and the fragment module, the pipeline
/// layout, the pipeline, the size of the window and the swap chain, in this
/// order, and ends in the ready stage with exactly what the provider made.
pub proof fn law_first_setup(
    instance: Handle,
    window: Handle,
    format: TextureFormat,
    made: InnerContext,
    surface: Handle,
    swap_chain: Handle,
)
    requires
        made.surface == Some(surface),
        made.swap_chain == Some(swap_chain),
    ensures
        ({
            let s0 = Lifecycle::initial(instance);
            let (s1, r1) = s0.setup(Some(window), format);
            let (s2, r2) = s1.resume(Reply::Surface(surface));
            let (s3, r3) = s2.resume(Reply::Adapter(Some(made.adapter)));
            let (s4, r4) = s3.resume(
                Reply::Device(Some(DeviceQueue { device: made.device, queue: made.queue })),
            );
            let (s5, r5) = s4.resume(Reply::ShaderModule(made.vs_module));
            let (s6, r6) = s5.resume(Reply::ShaderModule(made.fs_module));
            let (s7, r7) = s6.resume(Reply::PipelineLayout(made.pipeline_layout));
            let (s8, r8) = s7.resume(Reply::RenderPipeline(made.render_pipeline));
            let (s9, r9) = s8.resume(
                Reply::WindowSize { width: made.sc_desc.width, height: made.sc_desc.height },
            );
            let (s10, r10) = s9.resume(Reply::SwapChain(swap_chain));
            let sc_desc = window_swap_chain(format, made.sc_desc.width, made.sc_desc.height);
            &&& r1 == Step::Perform(Request::CreateSurface { instance, window })
            &&& r2 == Step::Perform(
                Request::RequestAdapter { instance, options: adapter_options_for(surface) },
            )
            &&& r3 == Step::Perform(
                Request::RequestDevice { adapter: made.adapter, descriptor: plain_device() },
            )
            &&& r4 == Step::Perform(
                Request::CreateShaderModule { device: made.device, stage: ShaderStage::Vertex },
            )
            &&& r5 == Step::Perform(
                Request::CreateShaderModule { device: made.device, stage: ShaderStage::Fragment },
            )
            &&& r6 == Step::Perform(
                Request::CreatePipelineLayout { device: made.device, descriptor: empty_layout() },
            )
            &&& r7 == Step::Perform(
                Request::CreateRenderPipeline {
                    device: made.device,
                    descriptor: triangle_pipeline(
                        made.pipeline_layout,
                        made.vs_module,
                        made.fs_module,
                        format,
                    ),
                },
            )
            &&& r8 == Step::Perform(Request::WindowSize { window })
            &&& r9 == Step::Perform(
                Request::CreateSwapChain {
                    device: made.device,
                    surface,
                    descriptor: sc_desc,
                    replaces: None,
                },
            )
            &&& r10 == Step::Done
            &&& s9.stage is Init
            &&& s10 == Lifecycle::initial(instance).completed(InnerContext { sc_desc, ..made })
        }),
{
}

/// Where the provider finds no adapter, or makes no device, the first setup
/// fails for good and the stage stays as it was.
pub proof fn law_setup_failure(state: Lifecycle, reply: Reply)
    requires
        state.stage is Init,
        (state.task is RequestingAdapter && reply == Reply::Adapter(None)) || (state.task
            is RequestingDevice && reply == Reply::Device(None)),
    ensures
        state.resume(reply).1 is Fatal,
        state.resume(reply).0 == state.with_task(Task::Idle),
{
}

/// A setup that finds the surface absent and a window at hand asks for a
/// surface and then for its swap chain, made from the descriptor that the
/// stage holds; surface and swap chain enter the stage together, and nothing
/// else in it changes.
pub proof fn law_setup_restores_surface(
    state: Lifecycle,
    inner: InnerContext,
    window: Handle,
    format: TextureFormat,
    surface: Handle,
    swap_chain: Handle,
)
    requires
        state.task is Idle,
        state.stage == WgpuStage::Ready(inner),
        inner.surface is None,
    ensures
        ({
            let (s1, r1) = state.setup(Some(window), format);
            let (s2, r2) = s1.resume(Reply::Surface(surface));
            let (s3, r3) = s2.resume(Reply::SwapChain(swap_chain));
            &&& r1 == Step::Perform(Request::CreateSurface { instance: state.instance, window })
            &&& r2 == Step::Perform(
                Request::CreateSwapChain {
                    device: inner.device,
                    surface,
                    descriptor: inner.sc_desc,
                    replaces: None,
                },
            )
            &&& r3 == Step::Done
            &&& s2.stage == state.stage
            &&& s3 == state.completed(inner.with_surface(surface, swap_chain))
        }),
{
}

/// Teardown of a surface asks the provider to throw away the surface and its
/// swap chain, and leaves the stage ready without them. A draw after that
/// asks nothing of the provider, fails nothing and changes nothing.
pub proof fn law_teardown_then_draw(state: Lifecycle, inner: InnerContext, surface: Handle, swap_chain: Handle)
    requires
        state.task is Idle,
        state.stage == WgpuStage::Ready(inner),
        inner.surface == Some(surface),
        inner.swap_chain == Some(swap_chain),
    ensures
        ({
            let (s1, r1) = state.clean_surface();
            let (s2, r2) = s1.resume(Reply::Dropped);
            &&& r1 == Step::Perform(Request::DropSurface { surface, swap_chain })
            &&& r2 == Step::Done
            &&& s2 == state.completed(inner.without_surface())
            &&& s2.draw() == (s2, Step::Skipped(Skip::NoSurface))
        }),
{
}

/// A draw while no surface exists, before the stage is ready or after, asks
/// nothing of the provider, fails nothing and changes nothing.
pub proof fn law_draw_without_surface(state: Lifecycle)
    requires
        !state.stage.has_surface(),
    ensures
        state.draw().0 == state,
        state.draw().1 is Skipped || state.draw().1 is Refused,
        state.task is Idle && state.stage is Init ==> state.draw().1 == Step::Skipped(
            Skip::Uninitialized,
        ),
        state.task is Idle && state.stage is Ready ==> state.draw().1 == Step::Skipped(
            Skip::NoSurface,
        ),
{
}

/// However often a draw is asked for while no surface exists, nothing
/// changes.
pub proof fn law_draws_without_surface(state: Lifecycle, inputs: Seq<Input>)
    requires
        !state.stage.has_surface(),
        forall|i: int| 0 <= i < inputs.len() ==> (#[trigger] inputs[i]).is_draw(),
    ensures
        state.after_all(inputs) == state,
    decreases inputs.len(),
{
    if inputs.len() > 0 {
        law_draws_without_surface(state, inputs.drop_last());
        assert(inputs.last() == inputs[inputs.len() - 1]);
        assert(inputs.last().is_draw());
    }
}

/// A draw on a surface takes a frame of the swap chain and submits, to the
/// queue of the device, one pass that clears the frame to green and draws one
/// instance of three vertices with the pipeline. The stage stays as it is.
pub proof fn law_draw_submits_one_frame(
    state: Lifecycle,
    inner: InnerContext,
    swap_chain: Handle,
    frame: Handle,
)
    requires
        state.task is Idle,
        state.stage == WgpuStage::Ready(inner),
        inner.wf(),
        inner.swap_chain == Some(swap_chain),
    ensures
        ({
            let (s1, r1) = state.draw();
            let (s2, r2) = s1.resume(Reply::Frame(Some(frame)));
            let (s3, r3) = s2.resume(Reply::Submitted);
            &&& r1 == Step::Perform(Request::AcquireFrame { swap_chain })
            &&& r2 == Step::Perform(
                Request::Submit {
                    device: inner.device,
                    queue: inner.queue,
                    pass: triangle_pass(frame, inner.render_pipeline),
                },
            )
            &&& r3 == Step::Done
            &&& s3 == state
            &&& s1.resume(Reply::Frame(None)).1 is Fatal
            &&& s1.resume(Reply::Frame(None)).0 == state
        }),
{
}

/// A resize on a surface asks for a swap chain of the new size, in place of
/// the one that the stage holds, and, with it, leaves a stage whose
/// descriptor has that size; the format, the usage and the present mode stay,
/// and so does everything but the swap chain.
pub proof fn law_resize(
    state: Lifecycle,
    inner: InnerContext,
    surface: Handle,
    width: u32,
    height: u32,
    swap_chain: Handle,
)
    requires
        state.task is Idle,
        state.stage == WgpuStage::Ready(inner),
        inner.surface == Some(surface),
    ensures
        ({
            let (s1, r1) = state.resize(width, height);
            let (s2, r2) = s1.resume(Reply::SwapChain(swap_chain));
            let sc_desc = resized(inner.sc_desc, width, height);
            &&& sc_desc.width == width
            &&& sc_desc.height == height
            &&& r1 == Step::Perform(
                Request::CreateSwapChain {
                    device: inner.device,
                    surface,
                    descriptor: sc_desc,
                    replaces: inner.swap_chain,
                },
            )
            &&& s1.stage == state.stage
            &&& r2 == Step::Done
            &&& s2 == state.completed(InnerContext { sc_desc, swap_chain: Some(swap_chain), ..inner })
        }),
{
}

/// A second resize to the same size asks for a swap chain again, with the
/// same descriptor, in place of the one that the first resize made, and
/// changes nothing in the stage but the swap chain. Where the provider answers
/// with the same swap chain, nothing changes at all.
pub proof fn law_resize_twice(
    state: Lifecycle,
    inner: InnerContext,
    surface: Handle,
    width: u32,
    height: u32,
    first: Handle,
    second: Handle,
)
    requires
        state.task is Idle,
        state.stage == WgpuStage::Ready(inner),
        inner.surface == Some(surface),
    ensures
        ({
            let (s1, r1) = state.resize(width, height);
            let (s2, r2) = s1.resume(Reply::SwapChain(first));
            let (s3, r3) = s2.resize(width, height);
            let (s4, r4) = s3.resume(Reply::SwapChain(second));
            &&& r3 == Step::Perform(
                Request::CreateSwapChain {
                    device: inner.device,
                    surface,
                    descriptor: resized(inner.sc_desc, width, height),
                    replaces: Some(first),
                },
            )
            &&& r4 == Step::Done
            &&& s4.stage matches WgpuStage::Ready(last)
            &&& s2.stage matches WgpuStage::Ready(once)
            &&& last == InnerContext { swap_chain: Some(second), ..once }
            &&& first == second ==> s4 == s2
        }),
{
}

/// A resize while no surface exists asks nothing of the provider and changes
/// nothing: the size is dropped.
pub proof fn law_resize_without_surface(state: Lifecycle, width: u32, height: u32)
    requires
        !state.stage.has_surface(),
    ensures
        state.resize(width, height).0 == state,
        state.resize(width, height).1 is Skipped || state.resize(width, height).1 is Refused,
{
}

/// A script that starts while no operation is under way runs until the
/// provider is needed or the script is at its end. It stops with an
/// operation under way exactly when it asks for the provider; else nothing
/// of it is left, and the loop is told what the event asked for.
pub proof fn law_script_runs_to_a_stop(session: Session)
    requires
        session.lifecycle.task is Idle,
    ensures
        ({
            let (next, turn) = session.advance();
            &&& turn is Perform || turn == Turn::Finished(session.control_flow)
            &&& turn is Perform <==> !(next.lifecycle.task is Idle)
            &&& turn is Finished ==> next.pending.len() == 0
            &&& next.pending.len() <= session.pending.len()
            &&& next.control_flow == session.control_flow
        }),
    decreases session.pending.len(),
{
    if session.pending.len() > 0 {
        let (lifecycle, step) = session.lifecycle.begin(
            session.pending[0],
            session.window,
            session.format,
        );
        let rest = Session { lifecycle, pending: session.pending.drop_first(), ..session };
        if step is Done || step is Skipped {
            law_script_runs_to_a_stop(rest);
        }
    }
}

/// When an event is handled, no operation is under way and nothing of its
/// script is left; when the provider is asked, an operation is under way.
pub proof fn law_event_handling_stops_cleanly(session: Session, event: Event, window: Option<Handle>)
    requires
        session.lifecycle.task is Idle,
    ensures
        ({
            let (next, turn) = session.on_event(event, window);
            &&& turn is Perform || turn == Turn::Finished(control_flow_for(event))
            &&& turn is Perform <==> !(next.lifecycle.task is Idle)
            &&& turn is Finished ==> next.pending.len() == 0
        }),
{
    law_script_runs_to_a_stop(
        Session {
            window,
            control_flow: control_flow_for(event),
            pending: operations_for(event, session.policy),
            ..session
        },
    );
}

/// When the handling of an event goes on with a reply and the event is
/// handled, no operation is under way and nothing of its script is left; a
/// fatal failure leaves nothing of the script either.
pub proof fn law_reply_handling_stops_cleanly(session: Session, reply: Reply)
    ensures
        ({
            let (next, turn) = session.on_reply(reply);
            &&& turn is Finished ==> next.lifecycle.task is Idle && next.pending.len() == 0 && turn
                == Turn::Finished(session.control_flow)
            &&& turn is Fatal ==> next.lifecycle.task is Idle && next.pending.len() == 0
            &&& turn is Perform ==> !(next.lifecycle.task is Idle)
            &&& turn is Refused ==> next == session
        }),
{
    let (lifecycle, step) = session.lifecycle.resume(reply);
    if step is Done {
        law_script_runs_to_a_stop(session.with_lifecycle(lifecycle));
    }
}

/// A request to close is handled at once: the loop exits, and the lifecycle
/// is not touched.
pub proof fn law_close_exits(session: Session, window: Option<Handle>)
    requires
        session.lifecycle.task is Idle,
    ensures
        session.on_event(Event::CloseRequested, window).1 == Turn::Finished(ControlFlow::Exit),
        session.on_event(Event::CloseRequested, window).0.lifecycle == session.lifecycle,
{
}

/// While an operation is under way an event is refused and changes nothing.
pub proof fn law_events_wait_their_turn(session: Session, event: Event, window: Option<Handle>)
    requires
        !(session.lifecycle.task is Idle),
    ensures
        session.on_event(event, window) == (session, Turn::Refused(Refusal::Busy)),
{
}

/// No event but a request to close makes the loop exit.
pub proof fn law_only_close_exits(session: Session, event: Event, window: Option<Handle>)
    requires
        session.on_event(event, window).1 == Turn::Finished(ControlFlow::Exit),
    ensures
        event is CloseRequested,
{
    reveal_with_fuel(Session::advance, 3);
}

/// The start of the loop without a native window is handled at once and
/// leaves the lifecycle before the ready stage.
pub proof fn law_init_without_window(session: Session)
    requires
        session.lifecycle.task is Idle,
        session.lifecycle.stage is Init,
    ensures
        session.on_event(Event::Init, None).1 == Turn::Finished(ControlFlow::Wait),
        session.on_event(Event::Init, None).0.lifecycle == session.lifecycle,
{
    reveal_with_fuel(Session::advance, 2);
}

} // verus!
