use esenix::input::{
    filter_event, main_loop_step, EventQueue, InputEvent, InputSignal, KeyPress, LoopControl,
    StepError,
};
use esenix::model::{Buffer, EsenixContext, EsenixMode, Window};
use esenix::render::TuiRenderable;

fn example_session() -> EsenixContext {
    let mut c = EsenixContext::default();
    c.buffers.push(Buffer::Text {
        name: String::from("example"),
        content: String::from("hallo, welt"),
    });
    c.windows.push(Window::default());
    c.active_window_idx = Some(0);
    c
}

#[test]
fn producer_keeps_key_presses_only() {
    assert_eq!(filter_event(InputEvent::Key(KeyPress::Escape)), Some(KeyPress::Escape));
    assert_eq!(filter_event(InputEvent::Key(KeyPress::Tab)), Some(KeyPress::Tab));
    assert_eq!(filter_event(InputEvent::Key(KeyPress::Other)), Some(KeyPress::Other));
    assert_eq!(filter_event(InputEvent::Resize), None);
    assert_eq!(filter_event(InputEvent::Other), None);
}

#[test]
fn queue_preserves_order() {
    let mut q = EventQueue::new();
    q.enqueue(KeyPress::Tab);
    q.enqueue(KeyPress::Other);
    q.enqueue(KeyPress::Escape);
    assert_eq!(q.len(), 3);
    assert_eq!(q.try_drain(), Some(KeyPress::Tab));
    assert_eq!(q.try_drain(), Some(KeyPress::Other));
    assert_eq!(q.try_drain(), Some(KeyPress::Escape));
    assert_eq!(q.try_drain(), None);
}

#[test]
fn empty_drain_is_a_no_op() {
    let mut q = EventQueue::new();
    assert_eq!(q.try_drain(), None);
    assert_eq!(q.len(), 0);
    q.enqueue(KeyPress::Tab);
    assert_eq!(q.try_drain(), Some(KeyPress::Tab));
    assert_eq!(q.try_drain(), None);
    assert_eq!(q.try_drain(), None);
}

#[test]
fn empty_drain_never_mutates_the_session() {
    let mut c = example_session();
    let before = c.clone();
    let r = main_loop_step(&mut c, None);
    assert_eq!(r, Ok(LoopControl::Continue));
    assert_eq!(c, before);
}

#[test]
fn escape_exits_without_touching_the_session() {
    let mut c = example_session();
    let before = c.clone();
    let r = main_loop_step(&mut c, Some(InputSignal::Key(KeyPress::Escape)));
    assert_eq!(r, Ok(LoopControl::Exit));
    assert_eq!(c, before);
}

#[test]
fn closed_input_stream_exits_cleanly() {
    let mut c = example_session();
    let before = c.clone();
    let r = main_loop_step(&mut c, Some(InputSignal::Closed));
    assert_eq!(r, Ok(LoopControl::Exit));
    assert_eq!(c, before);
}

#[test]
fn other_keys_are_reserved_no_ops() {
    let mut c = example_session();
    let before = c.clone();
    let r = main_loop_step(&mut c, Some(InputSignal::Key(KeyPress::Other)));
    assert_eq!(r, Ok(LoopControl::Continue));
    assert_eq!(c, before);
}

#[test]
fn tab_attaches_first_window_to_first_buffer() {
    let mut c = example_session();
    let r = main_loop_step(&mut c, Some(InputSignal::Key(KeyPress::Tab)));
    assert_eq!(r, Ok(LoopControl::Continue));
    assert_eq!(c.windows[0].buffer_idx, Some(0));
    assert_eq!(c.buffers.len(), 1);
    assert_eq!(c.active_window_idx, Some(0));
    assert_eq!(c.mode, EsenixMode::Normal);
}

#[test]
fn tab_is_idempotent() {
    let mut c = example_session();
    main_loop_step(&mut c, Some(InputSignal::Key(KeyPress::Tab))).unwrap();
    let once = c.clone();
    main_loop_step(&mut c, Some(InputSignal::Key(KeyPress::Tab))).unwrap();
    assert_eq!(c, once);
    assert_eq!(c.windows[0].buffer_idx, Some(0));
}

#[test]
fn tab_leaves_other_windows_alone() {
    let mut c = example_session();
    c.windows.push(Window { buffer_idx: Some(7) });
    main_loop_step(&mut c, Some(InputSignal::Key(KeyPress::Tab))).unwrap();
    assert_eq!(c.windows[0].buffer_idx, Some(0));
    assert_eq!(c.windows[1].buffer_idx, Some(7));
}

#[test]
fn tab_without_a_window_is_reported() {
    let mut c = EsenixContext::default();
    let before = c.clone();
    let r = main_loop_step(&mut c, Some(InputSignal::Key(KeyPress::Tab)));
    assert_eq!(r, Err(StepError::NoWindowToAttach));
    assert_eq!(c, before);
    assert_eq!(StepError::NoWindowToAttach.describe(), "no window to attach");
}

#[test]
fn initial_session_scenario() {
    let c = example_session();
    let status = c.render(None);
    assert_eq!(status[0], "Window: 0");
    assert_eq!(status[2], "Open Buffers: 1");
    let window_cells = c.windows[0].render(Some(&c));
    assert_eq!(window_cells, vec![String::from("Open Buffers: 1")]);
}

#[test]
fn attach_command_scenario() {
    let mut c = example_session();
    main_loop_step(&mut c, Some(InputSignal::Key(KeyPress::Tab))).unwrap();
    let window_cells = c.windows[0].render(Some(&c));
    assert_eq!(window_cells, vec![String::from("example --> hallo, welt")]);
}

#[test]
fn terminate_key_scenario() {
    let mut c = example_session();
    let mut q = EventQueue::new();
    q.enqueue(KeyPress::Escape);
    let drained = q.try_drain().map(InputSignal::Key);
    let r = main_loop_step(&mut c, drained);
    assert_eq!(r, Ok(LoopControl::Exit));
    assert_eq!(q.len(), 0);
}
