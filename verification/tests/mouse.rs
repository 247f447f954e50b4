use grimoire::mouse::{pointer_height, Mouse, MouseButtons, MouseState};

fn none() -> MouseButtons {
    MouseButtons::default()
}

fn left() -> MouseButtons {
    MouseButtons { left: true, ..MouseButtons::default() }
}

fn vector(state: MouseState) -> [f32; 4] {
    let sign = if state.pressed { 1.0 } else { -1.0 };
    [
        state.x as f32,
        state.y as f32,
        sign * state.press_x as f32,
        sign * state.press_y as f32,
    ]
}

#[test]
fn mouse_edge_semantics() {
    let mut mouse = Mouse::default();
    // t0: no button
    let state = mouse.update(none(), 0, 0);
    assert_eq!(vector(state), [0.0, 0.0, -0.0, -0.0]);
    // t1: left goes down at (10, 20)
    let state = mouse.update(left(), 10, 20);
    assert_eq!(vector(state), [10.0, 20.0, 10.0, 20.0]);
    // t2: released
    let state = mouse.update(none(), 10, 20);
    assert_eq!(vector(state), [10.0, 20.0, -10.0, -20.0]);
    // t3: the pointer moves while released: nothing follows it
    let state = mouse.update(none(), 50, 50);
    assert_eq!(vector(state), [10.0, 20.0, -10.0, -20.0]);
}

#[test]
fn pointer_is_followed_while_the_button_is_held() {
    let mut mouse = Mouse::_new();
    mouse.update(left(), 10, 20);
    let state = mouse.update(left(), 30, 40);
    assert_eq!(
        state,
        MouseState { x: 30, y: 40, press_x: 10, press_y: 20, pressed: true }
    );
    let state = mouse.update(none(), 31, 41);
    assert_eq!(
        state,
        MouseState { x: 30, y: 40, press_x: 10, press_y: 20, pressed: false }
    );
    let state = mouse.update(left(), 5, 6);
    assert_eq!(state, MouseState { x: 5, y: 6, press_x: 5, press_y: 6, pressed: true });
}

#[test]
fn press_on_the_edge_is_not_followed() {
    let mut mouse = Mouse::default();
    let state = mouse.update(left(), 0, 20);
    assert_eq!(state, MouseState { x: 0, y: 0, press_x: 0, press_y: 20, pressed: true });
    let state = mouse.update(left(), 7, 8);
    assert_eq!(state, MouseState { x: 0, y: 0, press_x: 0, press_y: 20, pressed: true });
}

#[test]
fn other_buttons_do_not_press() {
    let mut mouse = Mouse::default();
    let right = MouseButtons { right: true, middle: true, ..MouseButtons::default() };
    let state = mouse.update(right, 10, 20);
    assert_eq!(state, MouseState { x: 0, y: 0, press_x: 0, press_y: 0, pressed: false });
}

#[test]
fn pointer_height_counts_from_below() {
    assert_eq!(pointer_height(0, 432), 432);
    assert_eq!(pointer_height(100, 432), 332);
    assert_eq!(pointer_height(431, 432), 1);
    assert_eq!(pointer_height(432, 432), 0);
    assert_eq!(pointer_height(1000, 432), 0);
}
