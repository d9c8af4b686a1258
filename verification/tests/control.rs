use mesh_renderer::control::{
    on_event, ControlFlow, Event, DEFAULT_WINDOW_HEIGHT, DEFAULT_WINDOW_WIDTH,
};

#[test]
fn closing_the_rendered_window_ends_the_loop() {
    assert_eq!(on_event(Event::CloseRequested { own_window: true }), ControlFlow::Exit);
}

#[test]
fn closing_another_window_is_waited_out() {
    assert_eq!(on_event(Event::CloseRequested { own_window: false }), ControlFlow::Wait);
}

#[test]
fn redraw_renders_a_frame() {
    assert_eq!(on_event(Event::RedrawRequested), ControlFlow::Tick);
}

#[test]
fn other_events_are_waited_out() {
    assert_eq!(on_event(Event::Other), ControlFlow::Wait);
}

#[test]
fn default_window_is_640_by_480() {
    assert_eq!((DEFAULT_WINDOW_WIDTH, DEFAULT_WINDOW_HEIGHT), (640, 480));
}
