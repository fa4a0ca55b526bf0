use surface_lifecycle::event_loop::{
    control_flow, operations, ControlFlow, Dispatcher, Event, SuspendPolicy, Turn,
};
use surface_lifecycle::lifecycle::{Operation, Task};
use surface_lifecycle::provider::{DeviceQueue, Failure, Refusal, Reply, Request};
use surface_lifecycle::resource::{Color, Handle, TextureFormat};
use surface_lifecycle::stage::{InnerContext, WgpuStage};

const INSTANCE: Handle = Handle { id: 1 };
const WINDOW: Handle = Handle { id: 2 };
const FORMAT: TextureFormat = TextureFormat::Rgba8Unorm;

/// A provider that makes nothing: it numbers what it is asked for and keeps
/// a record of the requests.
struct Recorder {
    next: u64,
    size: (u32, u32),
    asked: Vec<Request>,
}

impl Recorder {
    fn new() -> Recorder {
        Recorder { next: 100, size: (640, 480), asked: Vec::new() }
    }

    fn make(&mut self) -> Handle {
        self.next += 1;
        Handle { id: self.next }
    }

    fn perform(&mut self, request: Request) -> Reply {
        self.asked.push(request);
        match request {
            Request::CreateSurface { .. } => Reply::Surface(self.make()),
            Request::RequestAdapter { .. } => Reply::Adapter(Some(self.make())),
            Request::RequestDevice { .. } => {
                Reply::Device(Some(DeviceQueue { device: self.make(), queue: self.make() }))
            }
            Request::CreateShaderModule { .. } => Reply::ShaderModule(self.make()),
            Request::CreatePipelineLayout { .. } => Reply::PipelineLayout(self.make()),
            Request::CreateRenderPipeline { .. } => Reply::RenderPipeline(self.make()),
            Request::WindowSize { .. } => Reply::WindowSize { width: self.size.0, height: self.size.1 },
            Request::CreateSwapChain { .. } => Reply::SwapChain(self.make()),
            Request::DropSurface { .. } => Reply::Dropped,
            Request::AcquireFrame { .. } => Reply::Frame(Some(self.make())),
            Request::Submit { .. } => Reply::Submitted,
        }
    }

    /// Delivers the event and serves the dispatcher until the event is handled.
    fn deliver(&mut self, dispatcher: &mut Dispatcher, event: Event, window: Option<Handle>) -> Turn {
        self.asked.clear();
        let mut turn = dispatcher.on_event(event, window);
        while let Turn::Perform(request) = turn {
            let reply = self.perform(request);
            turn = dispatcher.on_reply(reply);
        }
        turn
    }
}

fn inner_of(dispatcher: &Dispatcher) -> InnerContext {
    match dispatcher.context().stage() {
        WgpuStage::Ready(inner) => inner,
        WgpuStage::Init => panic!("the stage is not ready"),
    }
}

#[test]
fn scripts_of_the_events() {
    let keep = SuspendPolicy::KeepSurface;
    assert_eq!(operations(Event::Init, keep), vec![Operation::Setup]);
    assert_eq!(operations(Event::Resumed, keep), vec![Operation::Setup, Operation::Draw]);
    assert_eq!(operations(Event::Suspended, keep), vec![]);
    assert_eq!(operations(Event::Suspended, SuspendPolicy::DropSurface), vec![Operation::CleanSurface]);
    assert_eq!(
        operations(Event::Resized { width: 3, height: 4 }, keep),
        vec![Operation::Resize { width: 3, height: 4 }]
    );
    assert_eq!(operations(Event::RedrawRequested, keep), vec![Operation::Setup, Operation::Draw]);
    assert_eq!(operations(Event::MainEventsCleared, keep), vec![]);
    assert_eq!(operations(Event::CloseRequested, keep), vec![]);
    assert_eq!(operations(Event::Other, SuspendPolicy::DropSurface), vec![]);
}

#[test]
fn only_close_exits() {
    assert_eq!(control_flow(Event::CloseRequested), ControlFlow::Exit);
    for event in [
        Event::Init,
        Event::Resumed,
        Event::Suspended,
        Event::Resized { width: 1, height: 1 },
        Event::MainEventsCleared,
        Event::RedrawRequested,
        Event::Other,
    ] {
        assert_eq!(control_flow(event), ControlFlow::Wait);
    }
}

#[test]
fn new_dispatcher_waits() {
    let dispatcher = Dispatcher::new(INSTANCE, FORMAT, SuspendPolicy::KeepSurface);
    assert_eq!(dispatcher.control_flow(), ControlFlow::Wait);
    assert_eq!(dispatcher.pending(), 0);
    assert_eq!(dispatcher.context().stage(), WgpuStage::Init);
    assert_eq!(dispatcher.context().instance(), INSTANCE);
}

#[test]
fn from_start_to_close() {
    let mut provider = Recorder::new();
    let mut dispatcher = Dispatcher::new(INSTANCE, FORMAT, SuspendPolicy::KeepSurface);

    let turn = provider.deliver(&mut dispatcher, Event::Init, None);
    assert_eq!(turn, Turn::Finished(ControlFlow::Wait));
    assert_eq!(dispatcher.context().stage(), WgpuStage::Init);
    assert!(provider.asked.is_empty());

    let turn = provider.deliver(&mut dispatcher, Event::Resumed, Some(WINDOW));
    assert_eq!(turn, Turn::Finished(ControlFlow::Wait));
    let ready = inner_of(&dispatcher);
    assert!(ready.surface.is_some());
    assert!(ready.swap_chain.is_some());
    assert_eq!((ready.sc_desc.width, ready.sc_desc.height), (640, 480));
    assert_eq!(provider.asked.len(), 11);
    assert_eq!(provider.asked[9], Request::AcquireFrame { swap_chain: ready.swap_chain.unwrap() });
    let submitted: Vec<&Request> =
        provider.asked.iter().filter(|request| matches!(request, Request::Submit { .. })).collect();
    assert_eq!(submitted.len(), 1);
    match provider.asked[10] {
        Request::Submit { device, queue, pass } => {
            assert_eq!(device, ready.device);
            assert_eq!(queue, ready.queue);
            assert_eq!(pass.clear, Color::Green);
            assert!(pass.store);
            assert_eq!(pass.pipeline, ready.render_pipeline);
            assert_eq!((pass.first_vertex, pass.end_vertex), (0, 3));
            assert_eq!((pass.first_instance, pass.end_instance), (0, 1));
        }
        other => panic!("the last request is {:?}", other),
    }

    let turn = provider.deliver(&mut dispatcher, Event::RedrawRequested, Some(WINDOW));
    assert_eq!(turn, Turn::Finished(ControlFlow::Wait));
    assert_eq!(provider.asked.len(), 2);
    assert!(matches!(provider.asked[0], Request::AcquireFrame { .. }));
    assert!(matches!(provider.asked[1], Request::Submit { .. }));
    assert_eq!(inner_of(&dispatcher), ready);

    let turn = provider.deliver(&mut dispatcher, Event::Resized { width: 800, height: 600 }, Some(WINDOW));
    assert_eq!(turn, Turn::Finished(ControlFlow::Wait));
    let resized = inner_of(&dispatcher);
    assert_eq!((resized.sc_desc.width, resized.sc_desc.height), (800, 600));
    assert_eq!(
        provider.asked,
        vec![Request::CreateSwapChain {
            device: ready.device,
            surface: ready.surface.unwrap(),
            descriptor: resized.sc_desc,
            replaces: ready.swap_chain,
        }]
    );
    assert_ne!(resized.swap_chain, ready.swap_chain);
    assert_eq!(resized.surface, ready.surface);
    assert_eq!(resized.device, ready.device);

    let turn = provider.deliver(&mut dispatcher, Event::CloseRequested, Some(WINDOW));
    assert_eq!(turn, Turn::Finished(ControlFlow::Exit));
    assert_eq!(dispatcher.control_flow(), ControlFlow::Exit);
    assert!(provider.asked.is_empty());
    assert_eq!(inner_of(&dispatcher), resized);
}

#[test]
fn suspend_keeps_the_surface_by_policy() {
    let mut provider = Recorder::new();
    let mut dispatcher = Dispatcher::new(INSTANCE, FORMAT, SuspendPolicy::KeepSurface);
    provider.deliver(&mut dispatcher, Event::Resumed, Some(WINDOW));
    let ready = inner_of(&dispatcher);
    let turn = provider.deliver(&mut dispatcher, Event::Suspended, None);
    assert_eq!(turn, Turn::Finished(ControlFlow::Wait));
    assert!(provider.asked.is_empty());
    assert_eq!(inner_of(&dispatcher), ready);
}

#[test]
fn suspend_drops_the_surface_by_policy() {
    let mut provider = Recorder::new();
    let mut dispatcher = Dispatcher::new(INSTANCE, FORMAT, SuspendPolicy::DropSurface);
    provider.deliver(&mut dispatcher, Event::Resumed, Some(WINDOW));
    let ready = inner_of(&dispatcher);

    let turn = provider.deliver(&mut dispatcher, Event::Suspended, None);
    assert_eq!(turn, Turn::Finished(ControlFlow::Wait));
    assert_eq!(
        provider.asked,
        vec![Request::DropSurface {
            surface: ready.surface.unwrap(),
            swap_chain: ready.swap_chain.unwrap(),
        }]
    );
    let suspended = inner_of(&dispatcher);
    assert_eq!(suspended, InnerContext { surface: None, swap_chain: None, ..ready });

    let turn = provider.deliver(&mut dispatcher, Event::RedrawRequested, None);
    assert_eq!(turn, Turn::Finished(ControlFlow::Wait));
    assert!(provider.asked.is_empty());
    assert_eq!(inner_of(&dispatcher), suspended);

    let turn = provider.deliver(&mut dispatcher, Event::Resized { width: 5, height: 6 }, None);
    assert_eq!(turn, Turn::Finished(ControlFlow::Wait));
    assert!(provider.asked.is_empty());
    assert_eq!(inner_of(&dispatcher), suspended);

    let turn = provider.deliver(&mut dispatcher, Event::Resumed, Some(Handle { id: 3 }));
    assert_eq!(turn, Turn::Finished(ControlFlow::Wait));
    assert_eq!(provider.asked.len(), 4);
    assert_eq!(provider.asked[0], Request::CreateSurface { instance: INSTANCE, window: Handle { id: 3 } });
    let resumed = inner_of(&dispatcher);
    assert_eq!(
        provider.asked[1],
        Request::CreateSwapChain {
            device: ready.device,
            surface: resumed.surface.unwrap(),
            descriptor: ready.sc_desc,
            replaces: None,
        }
    );
    assert!(matches!(provider.asked[2], Request::AcquireFrame { .. }));
    assert!(matches!(provider.asked[3], Request::Submit { .. }));
    assert_ne!(resumed.surface, ready.surface);
    assert_eq!(resumed.device, ready.device);
    assert_eq!(resumed.render_pipeline, ready.render_pipeline);
    assert_eq!(resumed.sc_desc, ready.sc_desc);
}

#[test]
fn events_wait_for_the_operation_under_way() {
    let mut dispatcher = Dispatcher::new(INSTANCE, FORMAT, SuspendPolicy::KeepSurface);
    let turn = dispatcher.on_event(Event::Resumed, Some(WINDOW));
    assert_eq!(turn, Turn::Perform(Request::CreateSurface { instance: INSTANCE, window: WINDOW }));
    assert_eq!(dispatcher.pending(), 1);
    assert_eq!(dispatcher.on_event(Event::CloseRequested, Some(WINDOW)), Turn::Refused(Refusal::Busy));
    assert_eq!(dispatcher.on_event(Event::Resumed, Some(WINDOW)), Turn::Refused(Refusal::Busy));
    assert_eq!(dispatcher.control_flow(), ControlFlow::Wait);
    assert_eq!(dispatcher.pending(), 1);
    assert_eq!(dispatcher.on_reply(Reply::Submitted), Turn::Refused(Refusal::Unexpected));
    assert_eq!(dispatcher.pending(), 1);
    assert_eq!(
        dispatcher.context().task(),
        Task::CreatingSurface { window: WINDOW, format: FORMAT }
    );
}

#[test]
fn fatal_failure_gives_up_the_script() {
    let mut dispatcher = Dispatcher::new(INSTANCE, FORMAT, SuspendPolicy::KeepSurface);
    dispatcher.on_event(Event::Resumed, Some(WINDOW));
    dispatcher.on_reply(Reply::Surface(Handle { id: 9 }));
    assert_eq!(dispatcher.pending(), 1);
    assert_eq!(dispatcher.on_reply(Reply::Adapter(None)), Turn::Fatal(Failure::NoAdapter));
    assert_eq!(dispatcher.pending(), 0);
    assert_eq!(dispatcher.context().stage(), WgpuStage::Init);
    assert!(dispatcher.context().is_idle());
}

#[test]
fn reply_without_request_is_refused() {
    let mut dispatcher = Dispatcher::new(INSTANCE, FORMAT, SuspendPolicy::KeepSurface);
    assert_eq!(dispatcher.on_reply(Reply::Dropped), Turn::Refused(Refusal::Unexpected));
    assert_eq!(dispatcher.context().stage(), WgpuStage::Init);
}

#[test]
fn draw_before_the_window_asks_nothing() {
    let mut provider = Recorder::new();
    let mut dispatcher = Dispatcher::new(INSTANCE, FORMAT, SuspendPolicy::KeepSurface);
    for _ in 0..4 {
        let turn = provider.deliver(&mut dispatcher, Event::RedrawRequested, None);
        assert_eq!(turn, Turn::Finished(ControlFlow::Wait));
        assert!(provider.asked.is_empty());
        assert_eq!(dispatcher.context().stage(), WgpuStage::Init);
    }
}
