//! The bring-up as a state machine.
//!
//! The machine asks for one piece of outside work at a time with a `Request`.
//! The program that drives it does the work and hands the answer back as a
//! `Response`; `Bootstrap::step` then decides what comes next. Instance,
//! window, physical device, logical device, buffer, command buffer, submission
//! and fence come in this order and no other, and the window loop starts only
//! when the fence has signalled.

use crate::buffer::{sequence_to, sequential_data, Buffer, BufferUsage};
use crate::command::{
    can_copy, commands_compatible, copy_compatible, BuilderView, CommandBuffer,
    CommandBufferBuilder, CommandBufferView, CopyCommand,
};
use crate::device::{
    can_open, copy_of, open_request_valid, usage_valid, AllocationView, DeviceView,
    LogicalDevice, Queue,
};
use crate::driver::{DriverOutcome, WaitOutcome};
use crate::error::GfxError;
use crate::event_loop::{handle_event, is_close_request, Event, LoopAction, LoopState};
use crate::instance::{GraphicsInstance, InstanceExtensions};
use crate::report::{family_line, print_vk_ques};
use crate::selector::{
    first_device, get_vk_physical_device, has_graphics_family, is_first_graphics_family,
    select_device, select_queue_family, PhysicalDeviceDescriptor, QueueFamily,
};
use crate::surface::{init_vk_window, EventSource, EventSources, Surface};
use crate::sync::{
    after_copy, can_submit, in_flight_for, pending, submit, submit_allowed, wait, wait_result,
    FenceFuture,
};
use vstd::prelude::*;

verus! {

/// What the bring-up is run with.
#[derive(Debug)]
pub struct Config {
    /// The extensions to enable on the instance.
    pub required_extensions: InstanceExtensions,
    /// One priority, in thousandths, for each queue to request.
    pub queue_priorities: Vec<u16>,
    /// The usage of the buffer.
    pub usage: BufferUsage,
    /// Whether the host may read the buffer back. A check that reads the
    /// buffer after the copy needs this set; the copy itself does not.
    pub host_visible: bool,
    /// The number of integers, counted up from zero, to fill the buffer with.
    pub element_count: u32,
    /// The deadline of the wait on the fence in milliseconds, if there is one.
    pub wait_timeout_ms: Option<u64>,
}

/// The values of a configuration.
pub struct ConfigView {
    pub required_extensions: InstanceExtensions,
    pub queue_priorities: Seq<u16>,
    pub usage: BufferUsage,
    pub host_visible: bool,
    pub element_count: u32,
    pub wait_timeout_ms: Option<u64>,
}

impl View for Config {
    type V = ConfigView;

    open spec fn view(&self) -> ConfigView {
        ConfigView {
            required_extensions: self.required_extensions,
            queue_priorities: self.queue_priorities@,
            usage: self.usage,
            host_visible: self.host_visible,
            element_count: self.element_count,
            wait_timeout_ms: self.wait_timeout_ms,
        }
    }
}

impl Config {
    /// The round-trip run: one queue at half priority, a general-purpose
    /// buffer of 65536 integers that the host does not read back, and a wait
    /// without deadline.
    pub fn round_trip(required_extensions: InstanceExtensions) -> (config: Config)
        ensures
            config@ == (ConfigView {
                required_extensions,
                queue_priorities: seq![500u16],
                usage: BufferUsage::every(),
                host_visible: false,
                element_count: 65536,
                wait_timeout_ms: None,
            }),
    {
        let mut queue_priorities: Vec<u16> = Vec::new();
        queue_priorities.push(500);
        assert(queue_priorities@ =~= seq![500u16]);
        Config {
            required_extensions,
            queue_priorities,
            usage: BufferUsage::all(),
            host_visible: false,
            element_count: 65536,
            wait_timeout_ms: None,
        }
    }
}

/// The window of the run: its surface, and the event source to dispatch from.
#[derive(Clone, Copy, Debug, PartialEq, Eq, Structural)]
pub struct Window {
    pub events: EventSource,
    pub surface: Surface,
}

/// The outside work that the machine asks for.
#[derive(Debug, PartialEq, Eq)]
pub enum Request {
    /// Create the graphics instance with these extensions enabled.
    CreateInstance { extensions: InstanceExtensions },
    /// Make a new event source, build the window and its surface on it, and
    /// keep it to dispatch from. `passed_in` is the source that the program
    /// made before; nothing is bound to it.
    BuildWindow { passed_in: EventSource },
    /// Enumerate the physical devices and describe each.
    EnumerateDevices,
    /// Write these lines to standard output.
    PrintLines { lines: Vec<String> },
    /// Open the device at `physical` with one queue of the family at `family`
    /// for each of `priorities`, with the device features and the device
    /// extensions that are named, and no others.
    OpenDevice {
        physical: usize,
        family: usize,
        priorities: Vec<u16>,
        device_features: Vec<String>,
        device_extensions: Vec<String>,
    },
    /// Allocate a buffer filled with the integers from zero up to
    /// `element_count`.
    AllocateBuffer { usage: BufferUsage, host_visible: bool, element_count: u32 },
    /// Start recording a command buffer for the queue family at `family`.
    BeginRecording { family: usize },
    /// Record a copy of `src` into `dst`.
    RecordCopy { src: Buffer, dst: Buffer },
    /// End the recording.
    BuildCommandBuffer,
    /// Submit the command buffer to `queue`, with a fence behind it.
    Submit { queue: Queue },
    /// Wait on the fence, for no longer than `timeout_ms` if there is one.
    WaitFence { timeout_ms: Option<u64> },
    /// Take the next event from the event source `from`.
    PumpEvents { from: EventSource },
    /// Leave with success: the window was closed.
    Exit,
    /// Print the diagnostic of `error` and leave with failure.
    Abort { error: GfxError },
}

/// The values of a request.
pub enum RequestView {
    CreateInstance { extensions: InstanceExtensions },
    BuildWindow { passed_in: EventSource },
    EnumerateDevices,
    PrintLines { lines: Seq<Seq<char>> },
    OpenDevice {
        physical: usize,
        family: usize,
        priorities: Seq<u16>,
        device_features: Seq<Seq<char>>,
        device_extensions: Seq<Seq<char>>,
    },
    AllocateBuffer { usage: BufferUsage, host_visible: bool, element_count: u32 },
    BeginRecording { family: usize },
    RecordCopy { src: Buffer, dst: Buffer },
    BuildCommandBuffer,
    Submit { queue: Queue },
    WaitFence { timeout_ms: Option<u64> },
    PumpEvents { from: EventSource },
    Exit,
    Abort { error: GfxError },
}

impl View for Request {
    type V = RequestView;

    open spec fn view(&self) -> RequestView {
        match *self {
            Request::CreateInstance { extensions } => RequestView::CreateInstance { extensions },
            Request::BuildWindow { passed_in } => RequestView::BuildWindow { passed_in },
            Request::EnumerateDevices => RequestView::EnumerateDevices,
            Request::PrintLines { lines } => RequestView::PrintLines {
                lines: Seq::new(lines@.len(), |i: int| lines@[i]@),
            },
            Request::OpenDevice {
                physical,
                family,
                priorities,
                device_features,
                device_extensions,
            } => RequestView::OpenDevice {
                physical,
                family,
                priorities: priorities@,
                device_features: Seq::new(device_features@.len(), |i: int| device_features@[i]@),
                device_extensions: Seq::new(
                    device_extensions@.len(),
                    |i: int| device_extensions@[i]@,
                ),
            },
            Request::AllocateBuffer { usage, host_visible, element_count } => {
                RequestView::AllocateBuffer { usage, host_visible, element_count }
            },
            Request::BeginRecording { family } => RequestView::BeginRecording { family },
            Request::RecordCopy { src, dst } => RequestView::RecordCopy { src, dst },
            Request::BuildCommandBuffer => RequestView::BuildCommandBuffer,
            Request::Submit { queue } => RequestView::Submit { queue },
            Request::WaitFence { timeout_ms } => RequestView::WaitFence { timeout_ms },
            Request::PumpEvents { from } => RequestView::PumpEvents { from },
            Request::Exit => RequestView::Exit,
            Request::Abort { error } => RequestView::Abort { error },
        }
    }
}

/// The answer of the driving program to a request.
#[derive(Debug)]
pub enum Response {
    /// Whether the driver carried the request out.
    Driver(DriverOutcome),
    /// The physical devices, in enumeration order.
    Devices(Vec<PhysicalDeviceDescriptor>),
    /// How the wait on the fence ended.
    Fence(WaitOutcome),
    /// The next event of the window loop.
    Window(Event),
}

/// The values of a response.
pub enum ResponseView {
    Driver(DriverOutcome),
    Devices(Seq<Seq<QueueFamily>>),
    Fence(WaitOutcome),
    Window(Event),
}

impl View for Response {
    type V = ResponseView;

    open spec fn view(&self) -> ResponseView {
        match *self {
            Response::Driver(outcome) => ResponseView::Driver(outcome),
            Response::Devices(devices) => ResponseView::Devices(
                Seq::new(devices@.len(), |i: int| devices@[i]@),
            ),
            Response::Fence(outcome) => ResponseView::Fence(outcome),
            Response::Window(event) => ResponseView::Window(event),
        }
    }
}

/// Where the bring-up stands, with what it has made so far. Each stage but the
/// last two waits for the answer to the request that led to it.
#[derive(Debug)]
pub enum Stage {
    /// The instance was asked for.
    AwaitInstance,
    /// The window was asked for.
    AwaitWindow { instance: GraphicsInstance },
    /// The physical devices were asked for.
    AwaitDevices { window: Window },
    /// The report on the queue families is being printed.
    AwaitPrint { window: Window, physical: PhysicalDeviceDescriptor },
    /// The logical device was asked for.
    AwaitDevice { window: Window, physical: PhysicalDeviceDescriptor, family: usize },
    /// The buffer was asked for.
    AwaitBuffer { window: Window, device: LogicalDevice, queue: Queue },
    /// The start of the recording was asked for.
    AwaitBegin { window: Window, device: LogicalDevice, queue: Queue, buffer: Buffer },
    /// The copy command was handed over for recording.
    AwaitCopy {
        window: Window,
        device: LogicalDevice,
        queue: Queue,
        buffer: Buffer,
        builder: CommandBufferBuilder,
    },
    /// The end of the recording was asked for.
    AwaitBuild {
        window: Window,
        device: LogicalDevice,
        queue: Queue,
        builder: CommandBufferBuilder,
    },
    /// The command buffer was handed over for submission.
    AwaitSubmit { window: Window, device: LogicalDevice, queue: Queue, command: CommandBuffer },
    /// The fence is being waited on.
    AwaitFence { window: Window, device: LogicalDevice, fence: FenceFuture },
    /// The copy is done and the window loop dispatches events.
    Running { window: Window, device: LogicalDevice },
    /// The window was closed.
    Terminated,
    /// A step failed; nothing further is tried.
    Failed { error: GfxError },
}

/// The values of a stage.
pub enum StageView {
    AwaitInstance,
    AwaitWindow { instance: GraphicsInstance },
    AwaitDevices { window: Window },
    AwaitPrint { window: Window, physical: Seq<QueueFamily> },
    AwaitDevice { window: Window, physical: Seq<QueueFamily>, family: usize },
    AwaitBuffer { window: Window, device: DeviceView, queue: Queue },
    AwaitBegin { window: Window, device: DeviceView, queue: Queue, buffer: Buffer },
    AwaitCopy {
        window: Window,
        device: DeviceView,
        queue: Queue,
        buffer: Buffer,
        builder: BuilderView,
    },
    AwaitBuild { window: Window, device: DeviceView, queue: Queue, builder: BuilderView },
    AwaitSubmit { window: Window, device: DeviceView, queue: Queue, command: CommandBufferView },
    AwaitFence { window: Window, device: DeviceView, fence: CopyCommand },
    Running { window: Window, device: DeviceView },
    Terminated,
    Failed { error: GfxError },
}

impl View for Stage {
    type V = StageView;

    open spec fn view(&self) -> StageView {
        match *self {
            Stage::AwaitInstance => StageView::AwaitInstance,
            Stage::AwaitWindow { instance } => StageView::AwaitWindow { instance },
            Stage::AwaitDevices { window } => StageView::AwaitDevices { window },
            Stage::AwaitPrint { window, physical } => StageView::AwaitPrint {
                window,
                physical: physical@,
            },
            Stage::AwaitDevice { window, physical, family } => StageView::AwaitDevice {
                window,
                physical: physical@,
                family,
            },
            Stage::AwaitBuffer { window, device, queue } => StageView::AwaitBuffer {
                window,
                device: device@,
                queue,
            },
            Stage::AwaitBegin { window, device, queue, buffer } => StageView::AwaitBegin {
                window,
                device: device@,
                queue,
                buffer,
            },
            Stage::AwaitCopy { window, device, queue, buffer, builder } => StageView::AwaitCopy {
                window,
                device: device@,
                queue,
                buffer,
                builder: builder@,
            },
            Stage::AwaitBuild { window, device, queue, builder } => StageView::AwaitBuild {
                window,
                device: device@,
                queue,
                builder: builder@,
            },
            Stage::AwaitSubmit { window, device, queue, command } => StageView::AwaitSubmit {
                window,
                device: device@,
                queue,
                command: command@,
            },
            Stage::AwaitFence { window, device, fence } => StageView::AwaitFence {
                window,
                device: device@,
                fence: fence@,
            },
            Stage::Running { window, device } => StageView::Running { window, device: device@ },
            Stage::Terminated => StageView::Terminated,
            Stage::Failed { error } => StageView::Failed { error },
        }
    }
}

/// The event source that the program makes first and passes in when it asks
/// for the window.
pub open spec fn first_source() -> EventSource {
    EventSource { serial: 0 }
}

/// Whether `response` says that the driver carried the request out. Any other
/// answer counts as a refusal.
pub open spec fn accepted(response: ResponseView) -> bool {
    response == ResponseView::Driver(DriverOutcome::Accepted)
}

/// The bring-up stops with `error`.
pub open spec fn fail(error: GfxError) -> (StageView, RequestView) {
    (StageView::Failed { error }, RequestView::Abort { error })
}

/// The position of the first family of `families` that can do graphics work.
pub open spec fn first_graphics_family(families: Seq<QueueFamily>) -> int {
    choose|i: int| is_first_graphics_family(families, i)
}

/// The lines of the report on `families`.
pub open spec fn report_lines(families: Seq<QueueFamily>) -> Seq<Seq<char>> {
    Seq::new(families.len(), |i: int| family_line(families[i].queues_count as nat))
}

/// The instance is there: the window is next, if the instance can present.
pub open spec fn after_instance(config: ConfigView, response: ResponseView) -> (
    StageView,
    RequestView,
) {
    let instance = GraphicsInstance { extensions: config.required_extensions };
    if !accepted(response) {
        fail(GfxError::InstanceCreationError)
    } else if !instance.presentable() {
        fail(GfxError::SurfaceCreationError)
    } else {
        (
            StageView::AwaitWindow { instance },
            RequestView::BuildWindow { passed_in: first_source() },
        )
    }
}

/// Whether the window comes to be on `response`, asked for on `instance`.
pub open spec fn window_built(instance: GraphicsInstance, response: ResponseView) -> bool {
    instance.presentable() && accepted(response)
}

/// The source that is made next when `sources` were made so far.
pub open spec fn new_source(sources: Seq<EventSource>) -> EventSource {
    EventSource { serial: sources.len() as u64 }
}

/// The window is there: the devices are enumerated next. The window is bound
/// to a new source, and events are dispatched from that one, not from the
/// source that was passed in.
pub open spec fn after_window(
    instance: GraphicsInstance,
    sources: Seq<EventSource>,
    response: ResponseView,
) -> (StageView, RequestView) {
    if !window_built(instance, response) {
        fail(GfxError::SurfaceCreationError)
    } else {
        (
            StageView::AwaitDevices {
                window: Window {
                    events: new_source(sources),
                    surface: Surface { window_source: new_source(sources), instance },
                },
            },
            RequestView::EnumerateDevices,
        )
    }
}

/// The sources made when the step from `stage` on `response` is taken: the
/// step that builds the window makes one, no other step makes any.
pub open spec fn sources_after(
    sources: Seq<EventSource>,
    stage: StageView,
    response: ResponseView,
) -> Seq<EventSource> {
    match stage {
        StageView::AwaitWindow { instance } => if window_built(instance, response) {
            sources.push(new_source(sources))
        } else {
            sources
        },
        _ => sources,
    }
}

/// The devices are enumerated: the first is taken, and its queue families are
/// reported.
pub open spec fn after_devices(window: Window, response: ResponseView) -> (StageView, RequestView) {
    match response {
        ResponseView::Devices(devices) => match first_device(devices.len()) {
            Some(picked) => (
                StageView::AwaitPrint { window, physical: devices[picked as int] },
                RequestView::PrintLines { lines: report_lines(devices[picked as int]) },
            ),
            None => fail(GfxError::NoDeviceAvailable),
        },
        _ => fail(GfxError::NoDeviceAvailable),
    }
}

/// The report is out: the first family that can do graphics work is taken,
/// and the device is opened on it, without any feature or extension.
pub open spec fn after_print(config: ConfigView, window: Window, physical: Seq<QueueFamily>) -> (
    StageView,
    RequestView,
) {
    let family = first_graphics_family(physical);
    if !has_graphics_family(physical) {
        fail(GfxError::NoSuitableQueueFamily)
    } else if !open_request_valid(physical, family, config.queue_priorities) {
        fail(GfxError::DeviceOpenError)
    } else {
        (
            StageView::AwaitDevice { window, physical, family: family as usize },
            RequestView::OpenDevice {
                physical: 0,
                family: family as usize,
                priorities: config.queue_priorities,
                device_features: Seq::empty(),
                device_extensions: Seq::empty(),
            },
        )
    }
}

/// The device is open: the buffer is allocated next, on the first queue's
/// device.
pub open spec fn after_device(
    config: ConfigView,
    window: Window,
    physical: Seq<QueueFamily>,
    family: usize,
    response: ResponseView,
) -> (StageView, RequestView) {
    if !open_request_valid(physical, family as int, config.queue_priorities) || !accepted(
        response,
    ) {
        fail(GfxError::DeviceOpenError)
    } else if !usage_valid(config.usage) {
        fail(GfxError::AllocationError)
    } else {
        (
            StageView::AwaitBuffer {
                window,
                device: DeviceView {
                    family_index: family,
                    family: physical[family as int],
                    priorities: config.queue_priorities,
                    memory: Seq::empty(),
                },
                queue: Queue { family, index: 0, priority: config.queue_priorities[0] },
            },
            RequestView::AllocateBuffer {
                usage: config.usage,
                host_visible: config.host_visible,
                element_count: config.element_count,
            },
        )
    }
}

/// The buffer is there, filled with the integers counted up from zero: the
/// recording starts next.
pub open spec fn after_buffer(
    config: ConfigView,
    window: Window,
    device: DeviceView,
    queue: Queue,
    response: ResponseView,
) -> (StageView, RequestView) {
    if !usage_valid(config.usage) || !accepted(response) {
        fail(GfxError::AllocationError)
    } else {
        (
            StageView::AwaitBegin {
                window,
                device: DeviceView {
                    memory: device.memory.push(
                        AllocationView {
                            usage: config.usage,
                            host_visible: config.host_visible,
                            data: sequence_to(config.element_count as nat),
                            in_flight: false,
                        },
                    ),
                    ..device
                },
                queue,
                buffer: Buffer {
                    index: device.memory.len() as usize,
                    len: config.element_count as usize,
                    usage: config.usage,
                    host_visible: config.host_visible,
                },
            },
            RequestView::BeginRecording { family: queue.family },
        )
    }
}

/// The recording has started: the copy of the buffer onto itself is next,
/// if the buffer allows it.
pub open spec fn after_begin(
    window: Window,
    device: DeviceView,
    queue: Queue,
    buffer: Buffer,
    response: ResponseView,
) -> (StageView, RequestView) {
    if !accepted(response) {
        fail(GfxError::RecordingError)
    } else if !copy_compatible(buffer, buffer) {
        fail(GfxError::IncompatibleBufferError)
    } else {
        (
            StageView::AwaitCopy {
                window,
                device,
                queue,
                buffer,
                builder: BuilderView { queue_family: queue.family, commands: Seq::empty() },
            },
            RequestView::RecordCopy { src: buffer, dst: buffer },
        )
    }
}

/// The copy is recorded: the recording is ended next.
pub open spec fn after_copy_recorded(
    window: Window,
    device: DeviceView,
    queue: Queue,
    buffer: Buffer,
    builder: BuilderView,
    response: ResponseView,
) -> (StageView, RequestView) {
    if !copy_compatible(buffer, buffer) || !accepted(response) {
        fail(GfxError::IncompatibleBufferError)
    } else {
        (
            StageView::AwaitBuild {
                window,
                device,
                queue,
                builder: BuilderView {
                    queue_family: builder.queue_family,
                    commands: builder.commands.push(CopyCommand { src: buffer, dst: buffer }),
                },
            },
            RequestView::BuildCommandBuffer,
        )
    }
}

/// The command buffer is built: it is submitted next, if the device takes it.
pub open spec fn after_build(
    window: Window,
    device: DeviceView,
    queue: Queue,
    builder: BuilderView,
    response: ResponseView,
) -> (StageView, RequestView) {
    let command = CommandBufferView {
        queue_family: builder.queue_family,
        copy: builder.commands[0],
    };
    if builder.commands.len() != 1 || !accepted(response) {
        fail(GfxError::RecordingError)
    } else if !submit_allowed(device, command, queue) {
        fail(GfxError::SubmissionError)
    } else {
        (StageView::AwaitSubmit { window, device, queue, command }, RequestView::Submit { queue })
    }
}

/// The command buffer is submitted and its buffers are in flight: the fence is
/// waited on next.
pub open spec fn after_submit(
    config: ConfigView,
    window: Window,
    device: DeviceView,
    queue: Queue,
    command: CommandBufferView,
    response: ResponseView,
) -> (StageView, RequestView) {
    if !submit_allowed(device, command, queue) || !accepted(response) {
        fail(GfxError::SubmissionError)
    } else {
        (
            StageView::AwaitFence {
                window,
                device: DeviceView { memory: in_flight_for(device.memory, command.copy), ..device },
                fence: command.copy,
            },
            RequestView::WaitFence { timeout_ms: config.wait_timeout_ms },
        )
    }
}

/// How the wait ended according to `response`. Any answer that is not about
/// the fence counts as a lost device.
pub open spec fn wait_outcome(response: ResponseView) -> WaitOutcome {
    match response {
        ResponseView::Fence(outcome) => outcome,
        _ => WaitOutcome::DeviceLost,
    }
}

/// The wait is over: when the fence signalled, the copy has happened and the
/// window loop starts.
pub open spec fn after_fence(
    config: ConfigView,
    window: Window,
    device: DeviceView,
    fence: CopyCommand,
    response: ResponseView,
) -> (StageView, RequestView) {
    match wait_result(config.wait_timeout_ms, wait_outcome(response)) {
        Ok(_) => (
            StageView::Running {
                window,
                device: DeviceView { memory: after_copy(device.memory, fence), ..device },
            },
            RequestView::PumpEvents { from: window.events },
        ),
        Err(error) => fail(error),
    }
}

/// An event came in: a close request ends the run, anything else leaves it
/// running.
pub open spec fn after_event(window: Window, device: DeviceView, response: ResponseView) -> (
    StageView,
    RequestView,
) {
    match response {
        ResponseView::Window(event) => if is_close_request(event) {
            (StageView::Terminated, RequestView::Exit)
        } else {
            (StageView::Running { window, device }, RequestView::PumpEvents { from: window.events })
        },
        _ => (
            StageView::Running { window, device },
            RequestView::PumpEvents { from: window.events },
        ),
    }
}

/// The bring-up after the step on `response` was taken from `state`, and the
/// request that goes with it.
pub open spec fn next(state: BootstrapView, response: ResponseView) -> (
    BootstrapView,
    RequestView,
) {
    let (stage, request) = next_stage(state.config, state.sources, state.stage, response);
    (
        BootstrapView {
            config: state.config,
            sources: sources_after(state.sources, state.stage, response),
            stage,
        },
        request,
    )
}

/// The stage that follows `stage` on `response`, and the request that goes
/// with it.
pub open spec fn next_stage(
    config: ConfigView,
    sources: Seq<EventSource>,
    stage: StageView,
    response: ResponseView,
) -> (StageView, RequestView) {
    match stage {
        StageView::AwaitInstance => after_instance(config, response),
        StageView::AwaitWindow { instance } => after_window(instance, sources, response),
        StageView::AwaitDevices { window } => after_devices(window, response),
        StageView::AwaitPrint { window, physical } => after_print(config, window, physical),
        StageView::AwaitDevice { window, physical, family } => after_device(
            config,
            window,
            physical,
            family,
            response,
        ),
        StageView::AwaitBuffer { window, device, queue } => after_buffer(
            config,
            window,
            device,
            queue,
            response,
        ),
        StageView::AwaitBegin { window, device, queue, buffer } => after_begin(
            window,
            device,
            queue,
            buffer,
            response,
        ),
        StageView::AwaitCopy { window, device, queue, buffer, builder } => after_copy_recorded(
            window,
            device,
            queue,
            buffer,
            builder,
            response,
        ),
        StageView::AwaitBuild { window, device, queue, builder } => after_build(
            window,
            device,
            queue,
            builder,
            response,
        ),
        StageView::AwaitSubmit { window, device, queue, command } => after_submit(
            config,
            window,
            device,
            queue,
            command,
            response,
        ),
        StageView::AwaitFence { window, device, fence } => after_fence(
            config,
            window,
            device,
            fence,
            response,
        ),
        StageView::Running { window, device } => after_event(window, device, response),
        StageView::Terminated => (StageView::Terminated, RequestView::Exit),
        StageView::Failed { error } => fail(error),
    }
}

impl StageView {
    /// What holds of every stage that a run reaches: a device is well formed,
    /// every recorded copy is between compatible buffers, and a fence that is
    /// waited on stands for a submission that the device has not finished.
    pub open spec fn coherent(self) -> bool {
        match self {
            StageView::AwaitBuffer { device, .. } => device.well_formed(),
            StageView::AwaitBegin { device, .. } => device.well_formed(),
            StageView::AwaitCopy { device, builder, .. } => device.well_formed()
                && commands_compatible(builder.commands),
            StageView::AwaitBuild { device, builder, .. } => device.well_formed()
                && commands_compatible(builder.commands),
            StageView::AwaitSubmit { device, command, .. } => device.well_formed()
                && copy_compatible(command.copy.src, command.copy.dst),
            StageView::AwaitFence { device, fence, .. } => device.well_formed() && pending(
                device,
                fence,
            ),
            StageView::Running { device, .. } => device.well_formed(),
            _ => true,
        }
    }

    /// The window of the run, from the stage on at which there is one.
    pub open spec fn window(self) -> Option<Window> {
        match self {
            StageView::AwaitDevices { window } => Some(window),
            StageView::AwaitPrint { window, .. } => Some(window),
            StageView::AwaitDevice { window, .. } => Some(window),
            StageView::AwaitBuffer { window, .. } => Some(window),
            StageView::AwaitBegin { window, .. } => Some(window),
            StageView::AwaitCopy { window, .. } => Some(window),
            StageView::AwaitBuild { window, .. } => Some(window),
            StageView::AwaitSubmit { window, .. } => Some(window),
            StageView::AwaitFence { window, .. } => Some(window),
            StageView::Running { window, .. } => Some(window),
            _ => None,
        }
    }

    /// The place of the stage in the order of the bring-up. The stage of
    /// failure has no place in it.
    pub open spec fn rank(self) -> nat {
        match self {
            StageView::AwaitInstance => 0,
            StageView::AwaitWindow { .. } => 1,
            StageView::AwaitDevices { .. } => 2,
            StageView::AwaitPrint { .. } => 3,
            StageView::AwaitDevice { .. } => 4,
            StageView::AwaitBuffer { .. } => 5,
            StageView::AwaitBegin { .. } => 6,
            StageView::AwaitCopy { .. } => 7,
            StageView::AwaitBuild { .. } => 8,
            StageView::AwaitSubmit { .. } => 9,
            StageView::AwaitFence { .. } => 10,
            StageView::Running { .. } => 11,
            StageView::Terminated => 12,
            StageView::Failed { .. } => 13,
        }
    }
}

/// The bring-up: its configuration, the event sources it has made, and the
/// stage it has reached.
#[derive(Debug)]
pub struct Bootstrap {
    config: Config,
    sources: EventSources,
    stage: Stage,
}

/// The values of a bring-up.
pub struct BootstrapView {
    pub config: ConfigView,
    /// The event sources made so far, in the order they were made.
    pub sources: Seq<EventSource>,
    pub stage: StageView,
}

impl BootstrapView {
    /// What holds of every bring-up. Its stage is coherent. The first source
    /// is made at the start and the second with the window, and no other is
    /// made. The window is bound to the second source, and events are
    /// dispatched from that one.
    pub open spec fn coherent(self) -> bool {
        &&& self.stage.coherent()
        &&& 1 <= self.sources.len() <= 2
        &&& self.sources[0] == first_source()
        &&& self.stage.rank() <= 1 ==> self.sources.len() == 1
        &&& self.stage.window() matches Some(window) ==> {
            &&& self.sources.len() == 2
            &&& window.events == self.sources[1]
            &&& window.events != self.sources[0]
            &&& window.surface.window_source == window.events
        }
    }
}

impl View for Bootstrap {
    type V = BootstrapView;

    closed spec fn view(&self) -> BootstrapView {
        BootstrapView { config: self.config@, sources: self.sources@, stage: self.stage@ }
    }
}

/// Whether `response` says that the driver carried the request out.
fn driver_outcome(response: &Response) -> (outcome: DriverOutcome)
    ensures
        outcome == DriverOutcome::Accepted <==> accepted(response@),
        outcome == DriverOutcome::Rejected <==> !accepted(response@),
{
    match response {
        Response::Driver(DriverOutcome::Accepted) => DriverOutcome::Accepted,
        _ => DriverOutcome::Rejected,
    }
}

/// There is one first family that can do graphics work, if there is any.
pub proof fn lemma_first_graphics_family_unique(families: Seq<QueueFamily>, i: int)
    requires
        is_first_graphics_family(families, i),
    ensures
        first_graphics_family(families) == i,
        has_graphics_family(families),
{
    let j = first_graphics_family(families);
    assert(is_first_graphics_family(families, j));
    if j < i {
        assert(!families[j].graphics);
    }
    if i < j {
        assert(!families[i].graphics);
    }
}

/// Stops the bring-up with `error`.
fn stop(error: GfxError) -> (r: (Stage, Request))
    ensures
        r.0@.coherent(),
        (r.0@, r.1@) == fail(error),
{
    (Stage::Failed { error }, Request::Abort { error })
}

/// The step from the stage that waits for the instance.
fn step_instance(config: &Config, response: &Response) -> (r: (Stage, Request))
    ensures
        r.0@.coherent(),
        (r.0@, r.1@) == after_instance(config@, response@),
{
    match GraphicsInstance::create(config.required_extensions, driver_outcome(response)) {
        Err(error) => stop(error),
        Ok(instance) => if !instance.can_present() {
            stop(GfxError::SurfaceCreationError)
        } else {
            (
                Stage::AwaitWindow { instance },
                Request::BuildWindow { passed_in: EventSource { serial: 0 } },
            )
        },
    }
}

/// The step from the stage that waits for the window.
fn step_window(instance: GraphicsInstance, sources: &mut EventSources, response: &Response) -> (r:
    (Stage, Request))
    requires
        old(sources)@.len() == 1,
        old(sources)@[0] == first_source(),
    ensures
        r.0@.coherent(),
        (r.0@, r.1@) == after_window(instance, old(sources)@, response@),
        final(sources)@ == sources_after(
            old(sources)@,
            StageView::AwaitWindow { instance },
            response@,
        ),
{
    let first = EventSource { serial: 0 };
    match init_vk_window(&first, &instance, sources, driver_outcome(response)) {
        Err(error) => stop(error),
        Ok((events, surface)) => (
            Stage::AwaitDevices { window: Window { events, surface } },
            Request::EnumerateDevices,
        ),
    }
}

/// The step from the stage that waits for the physical devices.
fn step_devices(window: Window, response: Response) -> (r: (Stage, Request))
    ensures
        r.0@.coherent(),
        (r.0@, r.1@) == after_devices(window, response@),
{
    match response {
        Response::Devices(devices) => match select_device(&devices) {
            None => stop(GfxError::NoDeviceAvailable),
            Some(picked) => {
                let lines = print_vk_ques(get_vk_physical_device(&devices));
                let mut devices = devices;
                let physical = devices.remove(picked);
                let request = Request::PrintLines { lines };
                assert(request@ == (RequestView::PrintLines {
                    lines: report_lines(physical@),
                })) by {
                    assert(Seq::new(lines@.len(), |i: int| lines@[i]@) =~= report_lines(
                        physical@,
                    ));
                }
                (Stage::AwaitPrint { window, physical }, request)
            },
        },
        _ => stop(GfxError::NoDeviceAvailable),
    }
}

/// The step from the stage that waits for the report to be printed.
fn step_print(config: &Config, window: Window, physical: PhysicalDeviceDescriptor) -> (r: (
    Stage,
    Request,
))
    ensures
        r.0@.coherent(),
        (r.0@, r.1@) == after_print(config@, window, physical@),
{
    match select_queue_family(&physical) {
        Err(error) => stop(error),
        Ok(family) => {
            proof {
                lemma_first_graphics_family_unique(physical@, family as int);
            }
            if !can_open(&physical, family, &config.queue_priorities) {
                stop(GfxError::DeviceOpenError)
            } else {
                let priorities = copy_of(&config.queue_priorities);
                let request = Request::OpenDevice {
                    physical: 0,
                    family,
                    priorities,
                    device_features: Vec::new(),
                    device_extensions: Vec::new(),
                };
                assert(request@ == (RequestView::OpenDevice {
                    physical: 0,
                    family,
                    priorities: config@.queue_priorities,
                    device_features: Seq::empty(),
                    device_extensions: Seq::empty(),
                })) by {
                    assert(request@->device_features =~= Seq::<Seq<char>>::empty());
                    assert(request@->device_extensions =~= Seq::<Seq<char>>::empty());
                }
                (Stage::AwaitDevice { window, physical, family }, request)
            }
        },
    }
}

/// The step from the stage that waits for the logical device.
fn step_device(
    config: &Config,
    window: Window,
    physical: PhysicalDeviceDescriptor,
    family: usize,
    response: &Response,
) -> (r: (Stage, Request))
    ensures
        r.0@.coherent(),
        (r.0@, r.1@) == after_device(config@, window, physical@, family, response@),
{
    let priorities = copy_of(&config.queue_priorities);
    match LogicalDevice::open(&physical, family, priorities, driver_outcome(response)) {
        Err(error) => stop(error),
        Ok((device, queues)) => {
            if config.usage.is_empty() {
                stop(GfxError::AllocationError)
            } else {
                proof {
                    use_type_invariant(&device);
                }
                let queue = queues[0];
                (
                    Stage::AwaitBuffer { window, device, queue },
                    Request::AllocateBuffer {
                        usage: config.usage,
                        host_visible: config.host_visible,
                        element_count: config.element_count,
                    },
                )
            }
        },
    }
}

/// The step from the stage that waits for the buffer.
fn step_buffer(
    config: &Config,
    window: Window,
    device: LogicalDevice,
    queue: Queue,
    response: &Response,
) -> (r: (Stage, Request))
    ensures
        r.0@.coherent(),
        (r.0@, r.1@) == after_buffer(config@, window, device@, queue, response@),
{
    let mut device = device;
    let data = sequential_data(config.element_count);
    match device.allocate(config.usage, config.host_visible, data, driver_outcome(response)) {
        Err(error) => stop(error),
        Ok(buffer) => {
            proof {
                use_type_invariant(&device);
            }
            (
                Stage::AwaitBegin { window, device, queue, buffer },
                Request::BeginRecording { family: queue.family },
            )
        },
    }
}

/// The step from the stage that waits for the recording to start.
fn step_begin(
    window: Window,
    device: LogicalDevice,
    queue: Queue,
    buffer: Buffer,
    response: &Response,
) -> (r: (Stage, Request))
    ensures
        r.0@.coherent(),
        (r.0@, r.1@) == after_begin(window, device@, queue, buffer, response@),
{
    match driver_outcome(response) {
        DriverOutcome::Rejected => stop(GfxError::RecordingError),
        DriverOutcome::Accepted => if !can_copy(&buffer, &buffer) {
            stop(GfxError::IncompatibleBufferError)
        } else {
            proof {
                use_type_invariant(&device);
            }
            let builder = CommandBufferBuilder::begin(&device, queue.family);
            (
                Stage::AwaitCopy { window, device, queue, buffer, builder },
                Request::RecordCopy { src: buffer, dst: buffer },
            )
        },
    }
}

/// The step from the stage that waits for the copy to be recorded.
fn step_copy(
    window: Window,
    device: LogicalDevice,
    queue: Queue,
    buffer: Buffer,
    builder: CommandBufferBuilder,
    response: &Response,
) -> (r: (Stage, Request))
    requires
        commands_compatible(builder@.commands),
    ensures
        r.0@.coherent(),
        (r.0@, r.1@) == after_copy_recorded(window, device@, queue, buffer, builder@, response@),
{
    match driver_outcome(response) {
        DriverOutcome::Rejected => stop(GfxError::IncompatibleBufferError),
        DriverOutcome::Accepted => match builder.copy(buffer, buffer) {
            Err(error) => stop(error),
            Ok(builder) => {
                proof {
                    use_type_invariant(&device);
                }
                (Stage::AwaitBuild { window, device, queue, builder }, Request::BuildCommandBuffer)
            },
        },
    }
}

/// The step from the stage that waits for the recording to end.
fn step_build(
    window: Window,
    device: LogicalDevice,
    queue: Queue,
    builder: CommandBufferBuilder,
    response: &Response,
) -> (r: (Stage, Request))
    requires
        commands_compatible(builder@.commands),
    ensures
        r.0@.coherent(),
        (r.0@, r.1@) == after_build(window, device@, queue, builder@, response@),
{
    match builder.build(driver_outcome(response)) {
        Err(error) => stop(error),
        Ok(command) => if !can_submit(&device, &command, &queue) {
            stop(GfxError::SubmissionError)
        } else {
            proof {
                use_type_invariant(&device);
            }
            (Stage::AwaitSubmit { window, device, queue, command }, Request::Submit { queue })
        },
    }
}

/// The step from the stage that waits for the submission.
fn step_submit(
    config: &Config,
    window: Window,
    device: LogicalDevice,
    queue: Queue,
    command: CommandBuffer,
    response: &Response,
) -> (r: (Stage, Request))
    ensures
        r.0@.coherent(),
        (r.0@, r.1@) == after_submit(config@, window, device@, queue, command@, response@),
{
    let mut device = device;
    match submit(&mut device, command, &queue, driver_outcome(response)) {
        Err(error) => stop(error),
        Ok(fence) => {
            proof {
                use_type_invariant(&device);
            }
            (
                Stage::AwaitFence { window, device, fence },
                Request::WaitFence { timeout_ms: config.wait_timeout_ms },
            )
        },
    }
}

/// The step from the stage that waits on the fence.
fn step_fence(
    config: &Config,
    window: Window,
    device: LogicalDevice,
    fence: FenceFuture,
    response: &Response,
) -> (r: (Stage, Request))
    requires
        pending(device@, fence@),
    ensures
        r.0@.coherent(),
        (r.0@, r.1@) == after_fence(config@, window, device@, fence@, response@),
{
    let outcome = match response {
        Response::Fence(outcome) => *outcome,
        _ => WaitOutcome::DeviceLost,
    };
    let mut device = device;
    match wait(&mut device, fence, config.wait_timeout_ms, outcome) {
        Err(error) => stop(error),
        Ok(_) => {
            proof {
                use_type_invariant(&device);
            }
            (Stage::Running { window, device }, Request::PumpEvents { from: window.events })
        },
    }
}

/// The step from the stage in which the window loop runs.
fn step_event(window: Window, device: LogicalDevice, response: &Response) -> (r: (Stage, Request))
    ensures
        r.0@.coherent(),
        (r.0@, r.1@) == after_event(window, device@, response@),
{
    proof {
        use_type_invariant(&device);
    }
    match response {
        Response::Window(event) => {
            let (_, action) = handle_event(LoopState::Running, *event);
            match action {
                LoopAction::Exit => (Stage::Terminated, Request::Exit),
                LoopAction::Continue => (
                    Stage::Running { window, device },
                    Request::PumpEvents { from: window.events },
                ),
            }
        },
        _ => (Stage::Running { window, device }, Request::PumpEvents { from: window.events }),
    }
}

impl Bootstrap {
    /// Every bring-up is coherent.
    #[verifier::type_invariant]
    pub open spec fn inv(self) -> bool {
        self@.coherent()
    }

    /// Starts a bring-up with `config`. The program's first event source is
    /// made, and the first thing asked for is the instance.
    pub fn start(config: Config) -> (r: (Bootstrap, Request))
        ensures
            r.0@ == (BootstrapView {
                config: config@,
                sources: seq![first_source()],
                stage: StageView::AwaitInstance,
            }),
            r.1@ == (RequestView::CreateInstance { extensions: config.required_extensions }),
    {
        let request = Request::CreateInstance { extensions: config.required_extensions };
        let mut sources = EventSources::new();
        let first = sources.create();
        assert(sources@ =~= seq![first]);
        (Bootstrap { config, sources, stage: Stage::AwaitInstance }, request)
    }

    /// Takes the answer to the last request and decides what comes next: the
    /// stage that the bring-up moves to, the event sources that are then
    /// made, and the request that goes with it.
    pub fn step(self, response: Response) -> (r: (Bootstrap, Request))
        ensures
            (r.0@, r.1@) == next(self@, response@),
    {
        proof {
            use_type_invariant(&self);
            lemma_next_keeps_coherence(self@, response@);
        }
        let config = self.config;
        let mut sources = self.sources;
        let (stage, request) = match self.stage {
            Stage::AwaitInstance => step_instance(&config, &response),
            Stage::AwaitWindow { instance } => step_window(instance, &mut sources, &response),
            Stage::AwaitDevices { window } => step_devices(window, response),
            Stage::AwaitPrint { window, physical } => step_print(&config, window, physical),
            Stage::AwaitDevice { window, physical, family } => step_device(
                &config,
                window,
                physical,
                family,
                &response,
            ),
            Stage::AwaitBuffer { window, device, queue } => step_buffer(
                &config,
                window,
                device,
                queue,
                &response,
            ),
            Stage::AwaitBegin { window, device, queue, buffer } => step_begin(
                window,
                device,
                queue,
                buffer,
                &response,
            ),
            Stage::AwaitCopy { window, device, queue, buffer, builder } => step_copy(
                window,
                device,
                queue,
                buffer,
                builder,
                &response,
            ),
            Stage::AwaitBuild { window, device, queue, builder } => step_build(
                window,
                device,
                queue,
                builder,
                &response,
            ),
            Stage::AwaitSubmit { window, device, queue, command } => step_submit(
                &config,
                window,
                device,
                queue,
                command,
                &response,
            ),
            Stage::AwaitFence { window, device, fence } => step_fence(
                &config,
                window,
                device,
                fence,
                &response,
            ),
            Stage::Running { window, device } => step_event(window, device, &response),
            Stage::Terminated => (Stage::Terminated, Request::Exit),
            Stage::Failed { error } => stop(error),
        };
        (Bootstrap { config, sources, stage }, request)
    }

    /// The stage that the bring-up has reached. The bring-up is coherent.
    pub fn stage(&self) -> (stage: &Stage)
        ensures
            stage@ == self@.stage,
            self@.coherent(),
    {
        proof {
            use_type_invariant(self);
        }
        &self.stage
    }

    /// The event sources that the bring-up has made.
    pub fn sources(&self) -> (sources: &EventSources)
        ensures
            sources@ == self@.sources,
    {
        &self.sources
    }

    /// The configuration of the bring-up.
    pub fn config(&self) -> (config: &Config)
        ensures
            config@ == self@.config,
    {
        &self.config
    }
}

impl Request {
    /// The status that the process leaves with on this request: zero when the
    /// window was closed, one when a step failed. Any other request leaves the
    /// process running.
    pub open spec fn exit_status(self) -> Option<i32> {
        match self {
            Request::Exit => Some(0i32),
            Request::Abort { .. } => Some(1i32),
            _ => None,
        }
    }

    /// The status that the process leaves with on this request, if it is to
    /// leave.
    pub fn exit_code(&self) -> (code: Option<i32>)
        ensures
            code == self.exit_status(),
    {
        match self {
            Request::Exit => Some(0),
            Request::Abort { .. } => Some(1),
            _ => None,
        }
    }
}

/// A step from a coherent bring-up leads to a coherent bring-up.
pub proof fn lemma_next_keeps_coherence(state: BootstrapView, response: ResponseView)
    requires
        state.coherent(),
    ensures
        next(state, response).0.coherent(),
{
}

/// The stages come in their order. A step from a stage before the window loop
/// either fails or leads to the stage that follows next: none is skipped and
/// none is gone back to. The window loop is left only for the end of the run,
/// and the end of the run and the failure are left for nothing.
pub proof fn lemma_stages_in_order(state: BootstrapView, response: ResponseView)
    ensures
        state.stage.rank() < 11 ==> next(state, response).0.stage is Failed || next(
            state,
            response,
        ).0.stage.rank() == state.stage.rank() + 1,
        state.stage is Running ==> next(state, response).0.stage == state.stage || next(
            state,
            response,
        ).0.stage is Terminated,
        state.stage is Terminated || state.stage is Failed ==> next(state, response).0.stage
            == state.stage,
{
}

/// The request tells the stage: each request but the two that end the run goes
/// out on entering the one stage that waits for its answer.
pub proof fn lemma_request_names_stage(state: BootstrapView, response: ResponseView)
    ensures
        ({
            let (after, request) = next(state, response);
            &&& request is CreateInstance ==> false
            &&& request is BuildWindow <==> after.stage is AwaitWindow
            &&& request is EnumerateDevices <==> after.stage is AwaitDevices
            &&& request is PrintLines <==> after.stage is AwaitPrint
            &&& request is OpenDevice <==> after.stage is AwaitDevice
            &&& request is AllocateBuffer <==> after.stage is AwaitBuffer
            &&& request is BeginRecording <==> after.stage is AwaitBegin
            &&& request is RecordCopy <==> after.stage is AwaitCopy
            &&& request is BuildCommandBuffer <==> after.stage is AwaitBuild
            &&& request is Submit <==> after.stage is AwaitSubmit
            &&& request is WaitFence <==> after.stage is AwaitFence
            &&& request is PumpEvents <==> after.stage is Running
            &&& request is Exit <==> after.stage is Terminated
            &&& request is Abort <==> after.stage is Failed
        }),
{
}

/// The window comes with a source of its own. The step that builds the window
/// makes one new source, which is none of those made before and so not the
/// one passed in; the window is bound to it, and events are dispatched from
/// it. No other step makes a source.
pub proof fn lemma_window_has_a_new_source(state: BootstrapView, response: ResponseView)
    requires
        state.coherent(),
    ensures
        ({
            let after = next(state, response).0;
            &&& after.stage is AwaitDevices ==> {
                &&& !state.sources.contains(after.stage->AwaitDevices_window.events)
                &&& after.sources == state.sources.push(after.stage->AwaitDevices_window.events)
                &&& after.stage->AwaitDevices_window.surface.window_source
                    == after.stage->AwaitDevices_window.events
                &&& after.stage->AwaitDevices_window.events != first_source()
            }
            &&& !(after.stage is AwaitDevices) ==> after.sources == state.sources
        }),
{
    let after = next(state, response).0;
    if after.stage is AwaitDevices {
        let events = after.stage->AwaitDevices_window.events;
        if state.sources.contains(events) {
            let i = choose|i: int| 0 <= i < state.sources.len() && state.sources[i] == events;
            assert(i == 0);
        }
    }
}

/// Every request to pump events names the source that the window is bound to.
pub proof fn lemma_events_come_from_the_window(state: BootstrapView, response: ResponseView)
    requires
        state.coherent(),
        next(state, response).1 is PumpEvents,
    ensures
        ({
            let (after, request) = next(state, response);
            &&& after.stage is Running
            &&& request->PumpEvents_from == after.stage->Running_window.surface.window_source
            &&& request->PumpEvents_from != first_source()
        }),
{
}

/// The run ends with success on a close request to the running window loop,
/// and on nothing else.
pub proof fn lemma_exit_on_close_only(state: BootstrapView, response: ResponseView)
    requires
        !(state.stage is Terminated),
    ensures
        next(state, response).1 is Exit <==> state.stage is Running && response is Window
            && is_close_request(response->Window_0),
{
}

/// Nothing is handed over for submission but a copy between buffers of the
/// same element count, which the device owns and which are not in flight.
pub proof fn lemma_submit_only_compatible(state: BootstrapView, response: ResponseView)
    requires
        state.coherent(),
        next(state, response).1 is Submit,
    ensures
        ({
            let after = next(state, response).0.stage;
            &&& after is AwaitSubmit
            &&& after->AwaitSubmit_command.copy.src.len == after->AwaitSubmit_command.copy.dst.len
            &&& submit_allowed(
                after->AwaitSubmit_device,
                after->AwaitSubmit_command,
                after->AwaitSubmit_queue,
            )
        }),
{
}

/// A device is opened with no feature and no extension.
pub proof fn lemma_device_is_opened_bare(state: BootstrapView, response: ResponseView)
    requires
        next(state, response).1 is OpenDevice,
    ensures
        next(state, response).1->device_features.len() == 0,
        next(state, response).1->device_extensions.len() == 0,
{
}

/// When the fence of a copy of a buffer onto itself has signalled, every
/// buffer of the device holds what it held at submission, and none is in
/// flight on account of the copy.
pub proof fn lemma_signalled_copy_keeps_contents(
    state: BootstrapView,
    window: Window,
    device: DeviceView,
    fence: CopyCommand,
)
    requires
        state.stage == (StageView::AwaitFence { window, device, fence }),
        pending(device, fence),
        fence.src.index == fence.dst.index,
    ensures
        ({
            let after = next(state, ResponseView::Fence(WaitOutcome::Signaled)).0.stage;
            &&& after is Running
            &&& after->Running_device.memory.len() == device.memory.len()
            &&& forall|i: int|
                0 <= i < device.memory.len() ==> (#[trigger] after->Running_device.memory[i]).data
                    == device.memory[i].data
            &&& !after->Running_device.memory[fence.src.index as int].in_flight
        }),
{
}

} // verus!
