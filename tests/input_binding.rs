use scarab_engine::input::{Axis2dBinding, ButtonCode, ButtonState};

fn wasd() -> Axis2dBinding {
    Axis2dBinding::new(
        ButtonCode::Keyboard(0x64),
        ButtonCode::Keyboard(0x77),
        ButtonCode::Keyboard(0x61),
        ButtonCode::Keyboard(0x73),
    )
}

#[test]
fn press_and_release_move_the_axes() {
    let mut b = wasd();
    assert_eq!(b.value(), (0, 0));
    assert_eq!(b.maybe_to_action(ButtonCode::Keyboard(0x64), ButtonState::Press), Some((1, 0)));
    assert_eq!(b.maybe_to_action(ButtonCode::Keyboard(0x73), ButtonState::Press), Some((1, -1)));
    assert_eq!(b.maybe_to_action(ButtonCode::Keyboard(0x61), ButtonState::Press), Some((0, -1)));
    assert_eq!(b.maybe_to_action(ButtonCode::Keyboard(0x64), ButtonState::Release), Some((-1, -1)));
    assert_eq!(b.maybe_to_action(ButtonCode::Keyboard(0x77), ButtonState::Press), Some((-1, 0)));
}

#[test]
fn unbound_button_is_ignored() {
    let mut b = wasd();
    b.maybe_to_action(ButtonCode::Keyboard(0x64), ButtonState::Press);
    assert_eq!(b.maybe_to_action(ButtonCode::Mouse(1), ButtonState::Press), None);
    assert_eq!(b.maybe_to_action(ButtonCode::Keyboard(0x20), ButtonState::Press), None);
    assert_eq!(b.value(), (1, 0));
}
