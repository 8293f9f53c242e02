use ggez_imgui::mouse::{pressed_buttons, MouseButton, MouseState};

#[test]
fn new_state_is_idle() {
    let m = MouseState::new();
    assert_eq!(m.pos, (0, 0));
    assert_eq!(m.pressed, (false, false, false));
    assert_eq!(m.wheel, 0);
}

#[test]
fn motion_shows_in_next_frame() {
    let mut m = MouseState::new();
    m.update_mouse_pos(120, -7);
    let f = m.begin_frame();
    assert_eq!(f.pos, (120, -7));
    let g = m.begin_frame();
    assert_eq!(g.pos, (120, -7));
}

#[test]
fn wheel_is_read_once() {
    let mut m = MouseState::new();
    m.update_mouse_wheel(3);
    assert_eq!(m.begin_frame().wheel, 3);
    assert_eq!(m.begin_frame().wheel, 0);
}

#[test]
fn wheel_accumulates_between_frames() {
    let mut m = MouseState::new();
    m.update_mouse_wheel(2);
    m.update_mouse_wheel(-5);
    assert_eq!(m.wheel, -3);
    assert_eq!(m.begin_frame().wheel, -3);
    assert_eq!(m.wheel, 0);
}

#[test]
fn wheel_saturates_at_bounds() {
    let mut m = MouseState::new();
    m.update_mouse_wheel(i32::MAX);
    m.update_mouse_wheel(1);
    assert_eq!(m.wheel, i32::MAX);
    let mut n = MouseState::new();
    n.update_mouse_wheel(i32::MIN);
    n.update_mouse_wheel(-1);
    assert_eq!(n.wheel, i32::MIN);
}

#[test]
fn frame_reports_five_buttons() {
    let mut m = MouseState::new();
    m.update_mouse_down((true, false, true));
    let f = m.begin_frame();
    assert_eq!(f.down, [true, false, true, false, false]);
    assert_eq!(m.pressed, (true, false, true));
}

#[test]
fn pressed_buttons_per_button() {
    assert_eq!(pressed_buttons(MouseButton::Left), (true, false, false));
    assert_eq!(pressed_buttons(MouseButton::Right), (false, true, false));
    assert_eq!(pressed_buttons(MouseButton::Middle), (false, false, true));
    assert_eq!(pressed_buttons(MouseButton::Other(4)), (false, false, false));
}

#[test]
fn button_release_clears_flags() {
    let mut m = MouseState::new();
    m.update_mouse_down(pressed_buttons(MouseButton::Right));
    m.update_mouse_down((false, false, false));
    assert_eq!(m.begin_frame().down, [false; 5]);
}
