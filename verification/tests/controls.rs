use ship_demo::controls::{Button, Controls, Direction, Key, Rotation};

fn keys() -> [Key; 5] {
    [Key::W, Key::A, Key::S, Key::D, Key::Other]
}

#[test]
fn new_controls_are_at_rest() {
    let controls = Controls::new();
    assert_eq!(controls.dir, Direction::Neutral);
    assert_eq!(controls.rot, Rotation::Neutral);
}

#[test]
fn w_asks_for_forward_thrust() {
    let mut controls = Controls::new();
    controls.press(Button::Keyboard(Key::W));
    assert_eq!(controls, Controls { dir: Direction::Forward, rot: Rotation::Neutral });
}

#[test]
fn s_asks_for_reverse_thrust() {
    let mut controls = Controls::new();
    controls.press(Button::Keyboard(Key::S));
    assert_eq!(controls, Controls { dir: Direction::Reverse, rot: Rotation::Neutral });
}

#[test]
fn a_asks_for_a_left_turn() {
    let mut controls = Controls::new();
    controls.press(Button::Keyboard(Key::A));
    assert_eq!(controls, Controls { dir: Direction::Neutral, rot: Rotation::Left });
}

#[test]
fn d_asks_for_a_right_turn() {
    let mut controls = Controls::new();
    controls.press(Button::Keyboard(Key::D));
    assert_eq!(controls, Controls { dir: Direction::Neutral, rot: Rotation::Right });
}

#[test]
fn releasing_a_thrust_key_rests_the_thrust() {
    let mut controls = Controls { dir: Direction::Forward, rot: Rotation::Left };
    controls.release(Button::Keyboard(Key::W));
    assert_eq!(controls, Controls { dir: Direction::Neutral, rot: Rotation::Left });
    let mut controls = Controls { dir: Direction::Reverse, rot: Rotation::Right };
    controls.release(Button::Keyboard(Key::S));
    assert_eq!(controls, Controls { dir: Direction::Neutral, rot: Rotation::Right });
}

#[test]
fn releasing_a_turn_key_rests_the_turn() {
    let mut controls = Controls { dir: Direction::Forward, rot: Rotation::Left };
    controls.release(Button::Keyboard(Key::A));
    assert_eq!(controls, Controls { dir: Direction::Forward, rot: Rotation::Neutral });
    let mut controls = Controls { dir: Direction::Reverse, rot: Rotation::Right };
    controls.release(Button::Keyboard(Key::D));
    assert_eq!(controls, Controls { dir: Direction::Reverse, rot: Rotation::Neutral });
}

#[test]
fn releasing_the_other_key_of_an_axis_rests_it_too() {
    let mut controls = Controls::new();
    controls.press(Button::Keyboard(Key::W));
    controls.release(Button::Keyboard(Key::S));
    assert_eq!(controls.dir, Direction::Neutral);
    controls.press(Button::Keyboard(Key::D));
    controls.release(Button::Keyboard(Key::A));
    assert_eq!(controls.rot, Rotation::Neutral);
}

#[test]
fn other_keys_and_buttons_change_nothing() {
    let start = Controls { dir: Direction::Reverse, rot: Rotation::Left };
    let mut controls = start;
    controls.press(Button::Keyboard(Key::Other));
    assert_eq!(controls, start);
    controls.release(Button::Keyboard(Key::Other));
    assert_eq!(controls, start);
    controls.press(Button::Other);
    assert_eq!(controls, start);
    controls.release(Button::Other);
    assert_eq!(controls, start);
}

#[test]
fn thrust_keys_leave_the_turn_alone() {
    let turns = [Rotation::Left, Rotation::Right, Rotation::Neutral];
    let thrust_keys = [Key::W, Key::S];
    for rot in turns {
        for key in thrust_keys {
            let mut controls = Controls { dir: Direction::Neutral, rot };
            controls.press(Button::Keyboard(key));
            assert_eq!(controls.rot, rot);
            controls.release(Button::Keyboard(key));
            assert_eq!(controls.rot, rot);
        }
    }
}

#[test]
fn turn_keys_leave_the_thrust_alone() {
    let thrusts = [Direction::Forward, Direction::Reverse, Direction::Neutral];
    let turn_keys = [Key::A, Key::D];
    for dir in thrusts {
        for key in turn_keys {
            let mut controls = Controls { dir, rot: Rotation::Neutral };
            controls.press(Button::Keyboard(key));
            assert_eq!(controls.dir, dir);
            controls.release(Button::Keyboard(key));
            assert_eq!(controls.dir, dir);
        }
    }
}

#[test]
fn later_press_on_an_axis_wins() {
    let mut controls = Controls::new();
    controls.press(Button::Keyboard(Key::W));
    controls.press(Button::Keyboard(Key::S));
    assert_eq!(controls.dir, Direction::Reverse);
    controls.press(Button::Keyboard(Key::W));
    assert_eq!(controls.dir, Direction::Forward);
    controls.press(Button::Keyboard(Key::A));
    controls.press(Button::Keyboard(Key::D));
    assert_eq!(controls.rot, Rotation::Right);
    controls.press(Button::Keyboard(Key::A));
    assert_eq!(controls.rot, Rotation::Left);
}

#[test]
fn press_then_release_rests_the_axis_of_the_key() {
    for key in keys() {
        let mut controls = Controls { dir: Direction::Reverse, rot: Rotation::Right };
        controls.press(Button::Keyboard(key));
        controls.release(Button::Keyboard(key));
        let expected = match key {
            Key::W | Key::S => Controls { dir: Direction::Neutral, rot: Rotation::Right },
            Key::A | Key::D => Controls { dir: Direction::Reverse, rot: Rotation::Neutral },
            Key::Other => Controls { dir: Direction::Reverse, rot: Rotation::Right },
        };
        assert_eq!(controls, expected);
    }
}

#[test]
fn both_axes_can_be_set_at_once() {
    let mut controls = Controls::new();
    controls.press(Button::Keyboard(Key::S));
    controls.press(Button::Keyboard(Key::A));
    assert_eq!(controls, Controls { dir: Direction::Reverse, rot: Rotation::Left });
    controls.release(Button::Keyboard(Key::S));
    assert_eq!(controls, Controls { dir: Direction::Neutral, rot: Rotation::Left });
    controls.release(Button::Keyboard(Key::A));
    assert_eq!(controls, Controls::new());
}
