use vk_bootstrap::driver::DriverOutcome;
use vk_bootstrap::error::GfxError;
use vk_bootstrap::event_loop::{
    dispatch_all, handle_event, Event, LoopAction, LoopState, WindowEvent,
};
use vk_bootstrap::instance::{GraphicsInstance, InstanceExtensions};
use vk_bootstrap::surface::{init_vk_window, EventSource, EventSources};

fn presentable_extensions() -> InstanceExtensions {
    let mut extensions = InstanceExtensions::none();
    extensions.khr_surface = true;
    extensions.khr_xlib_surface = true;
    extensions
}

fn other_window_events() -> Vec<WindowEvent> {
    vec![
        WindowEvent::Resized,
        WindowEvent::Moved,
        WindowEvent::Destroyed,
        WindowEvent::DroppedFile,
        WindowEvent::HoveredFile,
        WindowEvent::HoveredFileCancelled,
        WindowEvent::ReceivedCharacter,
        WindowEvent::Focused,
        WindowEvent::KeyboardInput,
        WindowEvent::ModifiersChanged,
        WindowEvent::CursorMoved,
        WindowEvent::CursorEntered,
        WindowEvent::CursorLeft,
        WindowEvent::MouseWheel,
        WindowEvent::MouseInput,
        WindowEvent::TouchpadPressure,
        WindowEvent::AxisMotion,
        WindowEvent::Touch,
        WindowEvent::ScaleFactorChanged,
        WindowEvent::ThemeChanged,
    ]
}

fn other_events() -> Vec<Event> {
    let mut events = vec![
        Event::NewEvents,
        Event::DeviceEvent,
        Event::UserEvent,
        Event::Suspended,
        Event::Resumed,
        Event::MainEventsCleared,
        Event::RedrawRequested,
        Event::RedrawEventsCleared,
        Event::LoopDestroyed,
    ];
    for event in other_window_events() {
        events.push(Event::WindowEvent(event));
    }
    events
}

#[test]
fn instance_is_created_with_the_required_extensions() {
    let extensions = presentable_extensions();
    let instance = GraphicsInstance::create(extensions, DriverOutcome::Accepted).unwrap();
    assert_eq!(instance.extensions, extensions);
    assert!(instance.can_present());
}

#[test]
fn instance_creation_fails_when_the_driver_refuses() {
    assert_eq!(
        GraphicsInstance::create(presentable_extensions(), DriverOutcome::Rejected),
        Err(GfxError::InstanceCreationError)
    );
}

#[test]
fn instance_without_extensions_cannot_present() {
    let instance =
        GraphicsInstance::create(InstanceExtensions::none(), DriverOutcome::Accepted).unwrap();
    assert!(!instance.can_present());
    assert!(!instance.extensions.khr_surface);
    assert!(!instance.extensions.khr_get_surface_capabilities2);
}

#[test]
fn sources_are_made_one_after_the_other() {
    let mut sources = EventSources::new();
    assert_eq!(sources.count(), 0);
    assert!(!sources.contains(&EventSource { serial: 0 }));
    let first = sources.create();
    let second = sources.create();
    let third = sources.create();
    assert_eq!(first, EventSource { serial: 0 });
    assert_eq!(second, EventSource { serial: 1 });
    assert_eq!(third, EventSource { serial: 2 });
    assert_eq!(sources.count(), 3);
    assert!(sources.contains(&first));
    assert!(sources.contains(&second));
    assert!(sources.contains(&third));
    assert!(!sources.contains(&EventSource { serial: 3 }));
}

#[test]
fn window_hands_back_a_different_event_source() {
    let instance =
        GraphicsInstance::create(presentable_extensions(), DriverOutcome::Accepted).unwrap();
    let mut sources = EventSources::new();
    let passed_in = sources.create();
    let (handed_back, surface) =
        init_vk_window(&passed_in, &instance, &mut sources, DriverOutcome::Accepted).unwrap();
    assert_ne!(handed_back, passed_in);
    assert_eq!(handed_back, EventSource { serial: 1 });
    assert!(sources.contains(&handed_back));
    assert_eq!(sources.count(), 2);
    assert_eq!(surface.instance, instance);
}

#[test]
fn window_is_bound_to_the_source_handed_back() {
    let instance =
        GraphicsInstance::create(presentable_extensions(), DriverOutcome::Accepted).unwrap();
    let mut sources = EventSources::new();
    let passed_in = sources.create();
    let (handed_back, surface) =
        init_vk_window(&passed_in, &instance, &mut sources, DriverOutcome::Accepted).unwrap();
    assert_eq!(surface.window_source, handed_back);
    assert_ne!(surface.window_source, passed_in);
}

#[test]
fn two_windows_on_one_source_each_get_a_source_of_their_own() {
    let instance =
        GraphicsInstance::create(presentable_extensions(), DriverOutcome::Accepted).unwrap();
    let mut sources = EventSources::new();
    let passed_in = sources.create();
    let (a, surface_a) =
        init_vk_window(&passed_in, &instance, &mut sources, DriverOutcome::Accepted).unwrap();
    let (b, surface_b) =
        init_vk_window(&passed_in, &instance, &mut sources, DriverOutcome::Accepted).unwrap();
    assert_ne!(a, passed_in);
    assert_ne!(b, passed_in);
    assert_ne!(a, b);
    assert_ne!(surface_a, surface_b);
    assert_eq!(surface_a.window_source, a);
    assert_eq!(surface_b.window_source, b);
    assert_eq!(sources.count(), 3);
}

#[test]
fn window_on_the_handed_back_source_gives_a_third_source() {
    let instance =
        GraphicsInstance::create(presentable_extensions(), DriverOutcome::Accepted).unwrap();
    let mut sources = EventSources::new();
    let first = sources.create();
    let (second, _) =
        init_vk_window(&first, &instance, &mut sources, DriverOutcome::Accepted).unwrap();
    let (third, surface) =
        init_vk_window(&second, &instance, &mut sources, DriverOutcome::Accepted).unwrap();
    assert_ne!(second, first);
    assert_ne!(third, second);
    assert_ne!(third, first);
    assert_eq!(surface.window_source, third);
}

#[test]
fn window_fails_when_the_driver_refuses() {
    let instance =
        GraphicsInstance::create(presentable_extensions(), DriverOutcome::Accepted).unwrap();
    let mut sources = EventSources::new();
    let passed_in = sources.create();
    assert_eq!(
        init_vk_window(&passed_in, &instance, &mut sources, DriverOutcome::Rejected),
        Err(GfxError::SurfaceCreationError)
    );
    // no source was made
    assert_eq!(sources.count(), 1);
    assert!(!sources.contains(&EventSource { serial: 1 }));
}

#[test]
fn window_fails_without_the_surface_extension() {
    let mut extensions = presentable_extensions();
    extensions.khr_surface = false;
    let instance = GraphicsInstance::create(extensions, DriverOutcome::Accepted).unwrap();
    let mut sources = EventSources::new();
    let passed_in = sources.create();
    assert_eq!(
        init_vk_window(&passed_in, &instance, &mut sources, DriverOutcome::Accepted),
        Err(GfxError::SurfaceCreationError)
    );
    assert_eq!(sources.count(), 1);
}

#[test]
fn close_request_terminates_a_running_loop() {
    let close = Event::WindowEvent(WindowEvent::CloseRequested);
    assert_eq!(
        handle_event(LoopState::Running, close),
        (LoopState::Terminated, LoopAction::Exit)
    );
}

#[test]
fn other_events_leave_the_loop_running() {
    for event in other_events() {
        assert_eq!(
            handle_event(LoopState::Running, event),
            (LoopState::Running, LoopAction::Continue)
        );
    }
}

#[test]
fn terminated_loop_stays_terminated() {
    let mut events = other_events();
    events.push(Event::WindowEvent(WindowEvent::CloseRequested));
    for event in events {
        assert_eq!(
            handle_event(LoopState::Terminated, event),
            (LoopState::Terminated, LoopAction::Exit)
        );
    }
}

#[test]
fn loop_terminates_once_at_the_first_close_request() {
    let close = Event::WindowEvent(WindowEvent::CloseRequested);
    let events = vec![
        Event::NewEvents,
        Event::WindowEvent(WindowEvent::Resized),
        Event::MainEventsCleared,
        close,
        Event::WindowEvent(WindowEvent::Focused),
        close,
        Event::LoopDestroyed,
    ];
    let mut state = LoopState::Running;
    let mut transitions = 0;
    let mut at = None;
    for (i, event) in events.iter().enumerate() {
        let (next, _) = handle_event(state, *event);
        if state == LoopState::Running && next == LoopState::Terminated {
            transitions += 1;
            at = Some(i);
        }
        assert!(!(state == LoopState::Terminated && next == LoopState::Running));
        state = next;
    }
    assert_eq!(transitions, 1);
    assert_eq!(at, Some(3));
    assert_eq!(state, LoopState::Terminated);
}

#[test]
fn dispatching_without_close_request_keeps_running() {
    assert_eq!(dispatch_all(LoopState::Running, &other_events()), LoopState::Running);
    assert_eq!(dispatch_all(LoopState::Running, &Vec::new()), LoopState::Running);
}

#[test]
fn dispatching_with_close_request_terminates() {
    let mut events = other_events();
    events.insert(5, Event::WindowEvent(WindowEvent::CloseRequested));
    assert_eq!(dispatch_all(LoopState::Running, &events), LoopState::Terminated);
    assert_eq!(dispatch_all(LoopState::Terminated, &Vec::new()), LoopState::Terminated);
    assert_eq!(dispatch_all(LoopState::Terminated, &other_events()), LoopState::Terminated);
}
