use triton::game::components::{CursorCaptured, Renderable, ResizeEvents};
use triton::game::input::table::NameTable;
use triton::game::input::system::key_held;
use triton::game::input::{
    ActionDescriptor, ActionKind, ActionMap, ActionState, InputError, InputSnapshot, InputSystem,
    Key, MouseAxis, MouseButton, MouseSource, Source, SystemEvent, SystemEventKind,
    SystemEventState,
};

fn axis() -> ActionDescriptor {
    ActionDescriptor { kind: ActionKind::Axis }
}

fn button() -> ActionDescriptor {
    ActionDescriptor { kind: ActionKind::Button }
}

fn triggered(value: Option<f32>) -> ActionState {
    ActionState {
        active: true,
        active_state_changed_this_frame: false,
        value: value.map(f32::to_bits),
    }
}

fn controls() -> InputSystem {
    InputSystem::new()
        .add_action("walk_forward", button())
        .add_action("walk_backward", button())
        .add_action("look_vertical_action", axis())
        .add_action("look_horizontal_action", axis())
        .add_action_map(
            "main",
            ActionMap::new()
                .bind(Source::Keyboard(Key::W), "walk_forward")
                .bind(Source::Keyboard(Key::ArrowUp), "walk_forward")
                .bind(Source::Keyboard(Key::S), "walk_backward")
                .bind(Source::Mouse(MouseSource::Move(MouseAxis::MouseY)), "look_vertical_action")
                .bind(Source::Mouse(MouseSource::Move(MouseAxis::MouseX)), "look_horizontal_action")
                .bind(Source::Mouse(MouseSource::Button(MouseButton::Left)), "walk_forward"),
        )
}

fn snapshot(held: &[Key], dx: f32, dy: f32) -> InputSnapshot {
    InputSnapshot { held: held.to_vec(), mouse_diff: [dx.to_bits(), dy.to_bits()] }
}

#[test]
fn the_default_event_is_a_key_event_without_a_key() {
    assert_eq!(
        SystemEvent::default(),
        SystemEvent {
            kind: SystemEventKind::Key,
            state: None,
            value: None,
            key: None,
            mouse_button: None,
            repeated: false,
        }
    );
}

#[test]
fn a_key_event_is_heard_by_bindings_of_its_key() {
    let event = SystemEvent {
        key: Some(Key::W),
        state: Some(SystemEventState::Pressed),
        ..SystemEvent::default()
    };
    assert_eq!(event.source(), Some(Source::Keyboard(Key::W)));
    let event = SystemEvent { key: Some(Key::ArrowUp), repeated: true, ..SystemEvent::default() };
    assert_eq!(event.source(), Some(Source::Keyboard(Key::ArrowUp)));
}

#[test]
fn a_mouse_motion_is_heard_by_bindings_of_its_axis() {
    for axis in [MouseAxis::MouseX, MouseAxis::MouseY] {
        let event = SystemEvent {
            kind: SystemEventKind::MouseMotion(axis),
            value: Some(1.5f32.to_bits()),
            ..SystemEvent::default()
        };
        assert_eq!(event.source(), Some(Source::Mouse(MouseSource::Move(axis))));
    }
}

#[test]
fn buttons_and_scrolling_are_heard_by_no_binding() {
    let button = SystemEvent {
        kind: SystemEventKind::MouseButton,
        mouse_button: Some(MouseButton::Left),
        state: Some(SystemEventState::Released),
        ..SystemEvent::default()
    };
    assert_eq!(button.source(), None);
    let scroll = SystemEvent {
        kind: SystemEventKind::MouseScroll,
        key: Some(Key::A),
        ..SystemEvent::default()
    };
    assert_eq!(scroll.source(), None);
}

#[test]
fn sources_tell_buttons_from_axes() {
    assert_ne!(
        Source::Mouse(MouseSource::Move(MouseAxis::MouseX)),
        Source::Mouse(MouseSource::Scroll(MouseAxis::MouseX))
    );
    assert_ne!(
        Source::Mouse(MouseSource::Button(MouseButton::Left)),
        Source::Mouse(MouseSource::Button(MouseButton::Right))
    );
    assert_ne!(Source::Keyboard(Key::Key0), Source::Keyboard(Key::Key1));
    assert_ne!(
        ActionDescriptor { kind: ActionKind::Button },
        ActionDescriptor { kind: ActionKind::Axis }
    );
}

#[test]
fn resources_start_unset() {
    assert_eq!(ResizeEvents::default(), ResizeEvents(false));
    assert_eq!(CursorCaptured::default(), CursorCaptured(None));
    assert_eq!(Renderable { mesh_id: 3 }.mesh_id, 3);
}

#[test]
fn the_cursor_is_captured_by_the_left_button_and_released_by_the_right() {
    let click = |button, state| SystemEvent {
        kind: SystemEventKind::MouseButton,
        mouse_button: Some(button),
        state: Some(state),
        ..SystemEvent::default()
    };
    let start = CursorCaptured(Some(false));
    let captured = start.after(&click(MouseButton::Left, SystemEventState::Released));
    assert_eq!(captured, CursorCaptured(Some(true)));
    assert_eq!(
        captured.after(&click(MouseButton::Left, SystemEventState::Pressed)),
        CursorCaptured(Some(true))
    );
    assert_eq!(
        captured.after(&click(MouseButton::Right, SystemEventState::Pressed)),
        CursorCaptured(Some(true))
    );
    assert_eq!(
        captured.after(&click(MouseButton::Right, SystemEventState::Released)),
        CursorCaptured(Some(false))
    );
    assert_eq!(
        CursorCaptured(None).after(&click(MouseButton::Left, SystemEventState::Released)),
        CursorCaptured(Some(true))
    );
}

#[test]
fn escape_releases_the_cursor_and_other_keys_do_not() {
    let key = |key| SystemEvent { key: Some(key), ..SystemEvent::default() };
    let captured = CursorCaptured(Some(true));
    assert_eq!(captured.after(&key(Key::Escape)), CursorCaptured(Some(false)));
    assert_eq!(captured.after(&key(Key::W)), captured);
    assert_eq!(CursorCaptured(None).after(&key(Key::W)), CursorCaptured(None));
    let motion = SystemEvent {
        kind: SystemEventKind::MouseMotion(MouseAxis::MouseX),
        key: Some(Key::Escape),
        ..SystemEvent::default()
    };
    assert_eq!(captured.after(&motion), captured);
}

#[test]
fn a_name_table_keeps_the_last_value_of_a_name() {
    let mut table: NameTable<u8> = NameTable::new();
    assert_eq!(table.len(), 0);
    assert_eq!(table.get("a"), None);
    table.insert("a".to_string(), 1);
    table.insert("b".to_string(), 2);
    table.insert("a".to_string(), 3);
    assert_eq!(table.len(), 2);
    assert_eq!(table.get("a"), Some(&3));
    assert_eq!(table.get("b"), Some(&2));
    assert_eq!(table.get(""), None);
    assert_eq!(table.position("a"), Some(0));
    assert_eq!(table.position("b"), Some(1));
    assert_eq!(table.position("c"), None);
    assert!(table.contains_key("b"));
    assert!(!table.contains_key("B"));
    let (name, value) = table.entry(1);
    assert_eq!((name.as_str(), *value), ("b", 2));
    table.clear();
    assert_eq!(table.len(), 0);
    assert!(!table.contains_key("a"));
}

#[test]
fn an_action_map_binds_each_source_to_one_action() {
    let map = ActionMap::new();
    assert_eq!(map.len(), 0);
    assert_eq!(map.get(Source::Keyboard(Key::W)), None);
    let map = map
        .bind(Source::Keyboard(Key::W), "walk_forward")
        .bind(Source::Keyboard(Key::S), "walk_backward")
        .bind(Source::Keyboard(Key::W), "jump");
    assert_eq!(map.len(), 2);
    assert_eq!(map.get(Source::Keyboard(Key::W)).map(String::as_str), Some("jump"));
    assert_eq!(map.get(Source::Keyboard(Key::S)).map(String::as_str), Some("walk_backward"));
    assert_eq!(map.get(Source::Keyboard(Key::A)), None);
    assert_eq!(map.position(Source::Keyboard(Key::S)), Some(1));
    let (source, name) = map.binding(0);
    assert_eq!((source, name.as_str()), (Source::Keyboard(Key::W), "jump"));
}

#[test]
fn held_keys_are_found() {
    let held = vec![Key::W, Key::Shift];
    assert!(key_held(&held, Key::W));
    assert!(key_held(&held, Key::Shift));
    assert!(!key_held(&held, Key::S));
    assert!(!key_held(&Vec::new(), Key::W));
}

#[test]
fn a_new_input_system_knows_no_action() {
    let mut system = InputSystem::default();
    assert_eq!(system.get_action_state("walk_forward"), None);
    assert_eq!(system.get_action_state_map().len(), 0);
    assert!(system.process_winit_event(&snapshot(&[Key::W], 1.0, 1.0), true));
    assert_eq!(system.get_action_state_map().len(), 0);
    assert_eq!(system.activate_action_map("main"), Err(InputError::NoActionMap));
}

#[test]
fn held_keys_set_off_their_actions() {
    let mut system = controls();
    assert!(system.process_winit_event(&snapshot(&[Key::S, Key::ArrowUp], 0.0, 0.0), false));
    assert_eq!(system.get_action_state("walk_forward"), Some(&triggered(None)));
    assert_eq!(system.get_action_state("walk_backward"), Some(&triggered(None)));
    assert_eq!(system.get_action_state("look_vertical_action"), None);
    assert_eq!(system.get_action_state("look_horizontal_action"), None);
    assert_eq!(system.get_action_state_map().len(), 2);
}

#[test]
fn the_mouse_looks_around_only_while_it_is_captured() {
    let mut system = controls();
    system.process_winit_event(&snapshot(&[], 3.0, -4.5), false);
    assert_eq!(system.get_action_state_map().len(), 0);
    system.process_winit_event(&snapshot(&[], 3.0, -4.5), true);
    assert_eq!(system.get_action_state("look_horizontal_action"), Some(&triggered(Some(3.0))));
    assert_eq!(system.get_action_state("look_vertical_action"), Some(&triggered(Some(-4.5))));
    assert_eq!(system.get_action_state("walk_forward"), None);
}

#[test]
fn action_states_last_until_the_next_frame_begins() {
    let mut system = controls();
    system.process_winit_event(&snapshot(&[Key::W], 0.0, 0.0), false);
    system.process_winit_event(&snapshot(&[], 0.0, 0.0), false);
    assert_eq!(system.get_action_state("walk_forward"), Some(&triggered(None)));
    system.update();
    assert_eq!(system.get_action_state("walk_forward"), None);
    assert_eq!(system.get_action_state_map().len(), 0);
}

#[test]
fn a_later_binding_of_the_same_action_overrides_an_earlier_one() {
    let mut system = InputSystem::new().add_action_map(
        "main",
        ActionMap::new()
            .bind(Source::Mouse(MouseSource::Move(MouseAxis::MouseX)), "look")
            .bind(Source::Keyboard(Key::L), "look"),
    );
    system.process_winit_event(&snapshot(&[Key::L], 2.0, 0.0), true);
    assert_eq!(system.get_action_state("look"), Some(&triggered(None)));
    system.update();
    system.process_winit_event(&snapshot(&[], 2.0, 0.0), true);
    assert_eq!(system.get_action_state("look"), Some(&triggered(Some(2.0))));
}

#[test]
fn the_action_map_added_last_is_in_use() {
    let mut system = controls().add_action_map(
        "menu",
        ActionMap::new().bind(Source::Keyboard(Key::W), "menu_up"),
    );
    system.process_winit_event(&snapshot(&[Key::W], 0.0, 0.0), false);
    assert_eq!(system.get_action_state("menu_up"), Some(&triggered(None)));
    assert_eq!(system.get_action_state("walk_forward"), None);

    system.update();
    assert_eq!(system.activate_action_map("main"), Ok(()));
    system.process_winit_event(&snapshot(&[Key::W], 0.0, 0.0), false);
    assert_eq!(system.get_action_state("walk_forward"), Some(&triggered(None)));
    assert_eq!(system.get_action_state("menu_up"), None);

    assert_eq!(system.activate_action_map("nowhere"), Err(InputError::NoActionMap));
    system.update();
    system.process_winit_event(&snapshot(&[Key::W], 0.0, 0.0), false);
    assert_eq!(system.get_action_state("walk_forward"), Some(&triggered(None)));
}

#[test]
fn single_events_set_off_the_action_of_their_source() {
    let mut system = controls();
    system.process_system_event(SystemEvent { key: Some(Key::W), ..SystemEvent::default() });
    system.process_system_event(SystemEvent {
        kind: SystemEventKind::MouseMotion(MouseAxis::MouseY),
        value: Some(0.25f32.to_bits()),
        ..SystemEvent::default()
    });
    // Unbound, or heard by no binding.
    system.process_system_event(SystemEvent { key: Some(Key::Q), ..SystemEvent::default() });
    system.process_system_event(SystemEvent {
        kind: SystemEventKind::MouseButton,
        mouse_button: Some(MouseButton::Left),
        ..SystemEvent::default()
    });
    assert_eq!(system.get_cached_action_state("walk_forward"), Some(&triggered(None)));
    assert_eq!(
        system.get_cached_action_state("look_vertical_action"),
        Some(&triggered(Some(0.25)))
    );
    assert_eq!(system.get_cached_action_state("walk_backward"), None);
    assert_eq!(system.get_cached_action_state("look_horizontal_action"), None);
    // Single events do not touch the states of the frame.
    assert_eq!(system.get_action_state("walk_forward"), None);
}

#[test]
fn keys_are_held_from_press_to_release() {
    let mut snapshot = InputSnapshot::new();
    assert!(snapshot.held.is_empty());
    assert_eq!(snapshot.mouse_diff, [0, 0]);
    snapshot.key_pressed(Key::W);
    snapshot.key_pressed(Key::Shift);
    snapshot.key_pressed(Key::W);
    snapshot.key_pressed(Key::A);
    assert_eq!(snapshot.held, vec![Key::W, Key::Shift, Key::A]);
    snapshot.key_released(Key::Shift);
    assert_eq!(snapshot.held, vec![Key::W, Key::A]);
    snapshot.key_released(Key::Shift);
    snapshot.key_released(Key::Q);
    assert_eq!(snapshot.held, vec![Key::W, Key::A]);
    snapshot.key_released(Key::W);
    snapshot.key_released(Key::A);
    assert!(snapshot.held.is_empty());
}

#[test]
fn a_release_lets_go_of_every_copy_of_the_key() {
    let mut snapshot =
        InputSnapshot { held: vec![Key::W, Key::A, Key::W, Key::W], mouse_diff: [7, 9] };
    snapshot.key_released(Key::W);
    assert_eq!(snapshot.held, vec![Key::A]);
    assert_eq!(snapshot.mouse_diff, [7, 9]);
}
