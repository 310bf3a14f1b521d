use std::time::Duration;

use noframe::camera::Camera;
use noframe::deltatime::Deltatime;
use noframe::fixed::Fixed;
use noframe::input_manager::{InputManager, MouseButtonData as MBD};
use noframe::mask::Mask;
use noframe::point::Point;
use noframe::rect::Rect;
use noframe::size::Size;
use noframe::vector::Vector;

fn u(n: i64) -> Fixed {
    Fixed::from_units(n)
}

// Key and mouse-button codes for the tests; the numbering is free.
const KEY_A: u32 = 0;
const KEY_B: u32 = 1;
const KEY_X: u32 = 23;
const KEY_Y: u32 = 24;
const BTN_LEFT: u32 = 0;
const BTN_RIGHT: u32 = 1;
const BTN_MIDDLE: u32 = 2;

fn get_keys() -> (InputManager, Vec<u32>, Vec<u32>) {
    (InputManager::new(), vec![KEY_A, KEY_B], vec![KEY_X, KEY_Y])
}

fn get_mouse_btns() -> (InputManager, Vec<MBD>, Vec<MBD>) {
    (
        InputManager::new(),
        vec![
            MBD::new(BTN_LEFT, u(10), u(20)),
            MBD::new(BTN_RIGHT, u(100), u(200)),
        ],
        vec![MBD::new(BTN_MIDDLE, u(0), u(0))],
    )
}

#[test]
fn test_keys_down() {
    let (mut manager, keys, nokeys) = get_keys();

    for key in keys.iter() {
        manager.set_key_down(*key, false);
    }
    for nokey in nokeys.iter() {
        manager.set_key_down(*nokey, true); // repeat events are ignored
    }

    {
        let keys_down = manager.keys_down();
        for key in keys.iter() {
            assert!(keys_down.contains(key), "Should contain key");
        }
        for nokey in nokeys.iter() {
            assert!(!keys_down.contains(nokey), "Shouldn't contain key");
        }
    }

    manager.update();

    let keys_down = manager.keys_down();
    for key in keys.iter() {
        assert!(!keys_down.contains(key), "Shouldn't contain key after update");
    }
}

#[test]
fn test_keys_up() {
    let (mut manager, keys, nokeys) = get_keys();

    for key in keys.iter() {
        manager.set_key_up(*key);
    }

    {
        let keys_up = manager.keys_up();
        for key in keys.iter() {
            assert!(keys_up.contains(key), "Should contain key");
        }
        for nokey in nokeys.iter() {
            assert!(!keys_up.contains(nokey), "Shouldn't contain key");
        }
    }

    manager.update();

    let keys_up = manager.keys_up();
    for key in keys.iter() {
        assert!(!keys_up.contains(key), "Shouldn't contain key after update");
    }
}

#[test]
fn test_has_key_down() {
    let (mut manager, keys, nokeys) = get_keys();

    for key in keys.iter() {
        manager.set_key_down(*key, false);
    }
    for nokey in nokeys.iter() {
        manager.set_key_down(*nokey, true);
    }

    for key in keys.iter() {
        assert!(manager.has_key_down(*key), "Key should be down (`has_key_down`)");
    }
    for nokey in nokeys.iter() {
        assert!(
            !manager.has_key_down(*nokey),
            "Key shouldn't be down (`has_key_down`)"
        );
    }

    manager.update();

    for key in keys.iter() {
        assert!(
            !manager.has_key_down(*key),
            "Key shouldn't be down after update (`has_key_down`)"
        );
    }
}

#[test]
fn test_has_key_up() {
    let (mut manager, keys, nokeys) = get_keys();

    for key in keys.iter() {
        manager.set_key_up(*key);
    }

    for key in keys.iter() {
        assert!(manager.has_key_up(*key), "Key should be up (`has_key_up`)");
    }
    for nokey in nokeys.iter() {
        assert!(!manager.has_key_up(*nokey), "Key shouldn't be up (`has_key_up`)");
    }

    manager.update();

    for key in keys.iter() {
        assert!(
            !manager.has_key_up(*key),
            "Key shouldn't be up after update (`has_key_up`)"
        );
    }
}

#[test]
fn test_is_key_pressed() {
    let (mut manager, keys, nokeys) = get_keys();

    for key in keys.iter() {
        manager.set_key_down(*key, false);
    }
    for nokey in nokeys.iter() {
        manager.set_key_down(*nokey, true);
    }

    manager.update();

    for key in keys.iter() {
        assert!(
            manager.is_key_pressed(*key),
            "Key should be pressed (`is_key_pressed`)"
        );
    }
    for nokey in nokeys.iter() {
        assert!(
            !manager.is_key_pressed(*nokey),
            "Key shouldn't be pressed (`is_key_pressed`)"
        );
    }

    for key in keys.iter() {
        manager.set_key_up(*key);
    }

    for key in keys.iter() {
        assert!(
            !manager.is_key_pressed(*key),
            "Key shouldn't be pressed after release (`is_key_pressed`)"
        );
    }
}

#[test]
fn test_mouse_down() {
    let (mut manager, btns, nobtns) = get_mouse_btns();

    for btn in btns.iter() {
        manager.set_mouse_down(btn.button, btn.point.x, btn.point.y);
    }

    {
        let btns_down = manager.mouse_down();
        for btn in btns.iter() {
            assert!(btns_down.contains(btn), "Should contain mouse button");
        }
        for nobtn in nobtns.iter() {
            assert!(!btns_down.contains(nobtn), "Shouldn't contain mouse button");
        }
    }

    manager.update();

    let btns_down = manager.mouse_down();
    for btn in btns.iter() {
        assert!(!btns_down.contains(btn), "Shouldn't contain button after update");
    }
}

#[test]
fn test_mouse_up() {
    let (mut manager, btns, nobtns) = get_mouse_btns();

    for btn in btns.iter() {
        manager.set_mouse_up(btn.button, btn.point.x, btn.point.y);
    }

    {
        let btns_up = manager.mouse_up();
        for btn in btns.iter() {
            assert!(btns_up.contains(btn), "Should contain mouse button");
        }
        for nobtn in nobtns.iter() {
            assert!(!btns_up.contains(nobtn), "Shouldn't contain mouse button");
        }
    }

    manager.update();

    let btns_up = manager.mouse_up();
    for btn in btns.iter() {
        assert!(!btns_up.contains(btn), "Shouldn't contain button after update");
    }
}

#[test]
fn test_has_mouse_down() {
    let (mut manager, btns, nobtns) = get_mouse_btns();

    for btn in btns.iter() {
        manager.set_mouse_down(btn.button, btn.point.x, btn.point.y);
    }

    for btn in btns.iter() {
        assert!(
            manager.has_mouse_down(btn.button),
            "Mouse button should be down (`has_mouse_down`)"
        );
    }
    for nobtn in nobtns.iter() {
        assert!(
            !manager.has_mouse_down(nobtn.button),
            "Mouse button should not be down (`has_mouse_down`)"
        );
    }

    manager.update();

    for btn in btns.iter() {
        assert!(
            !manager.has_mouse_down(btn.button),
            "Mouse button should not be down after update (`has_mouse_down`)"
        );
    }
}

#[test]
fn test_has_mouse_up() {
    let (mut manager, btns, nobtns) = get_mouse_btns();

    for btn in btns.iter() {
        manager.set_mouse_up(btn.button, btn.point.x, btn.point.y);
    }

    for btn in btns.iter() {
        assert!(
            manager.has_mouse_up(btn.button),
            "Mouse button should be down (`has_mouse_up`)"
        );
    }
    for nobtn in nobtns.iter() {
        assert!(
            !manager.has_mouse_up(nobtn.button),
            "Mouse button should not be down (`has_mouse_up`)"
        );
    }

    manager.update();

    for btn in btns.iter() {
        assert!(
            !manager.has_mouse_up(btn.button),
            "Mouse button should not be down after update (`has_mouse_up`)"
        );
    }
}

#[test]
fn test_mouse_wheel() {
    let mut manager = InputManager::new();

    let ints: Vec<i64> = vec![-1, -2, 1, 1, 2, 2, 3, 3];
    for i in ints.iter() {
        manager.set_mouse_wheel(u(0), u(*i));
    }

    let sum: i64 = ints.iter().sum();
    assert_eq!(sum as i32, manager.mouse_scroll(), "Should have proper scroll value");

    manager.update();

    assert_eq!(0, manager.mouse_scroll(), "Should have reset scroll value to 0");
}

#[test]
fn test_mouse_motion() {
    let mut manager = InputManager::new();

    // Raw thousandths of a unit, so sub-unit motion stays exact.
    let positions: Vec<[i64; 4]> = vec![
        [0, 0, 0, 0],
        [10000, 20000, 0, 0],
        [20000, 20000, 5000, 2000],
        [30000, 40000, 1500, 3600],
        [60000, 80000, 200, 4900],
    ];

    for data in positions.iter() {
        manager.set_mouse_motion(
            Fixed::from_raw(data[0]),
            Fixed::from_raw(data[1]),
            Fixed::from_raw(data[2]),
            Fixed::from_raw(data[3]),
        );
        assert_eq!(
            &Point::new(Fixed::from_raw(data[0]), Fixed::from_raw(data[1])),
            manager.mouse_point(),
            "Mouse should be in correct position"
        );
        assert_eq!(
            &Vector::new(Fixed::from_raw(data[2]), Fixed::from_raw(data[3])),
            manager.mouse_motion(),
            "Mouse's relative motion should be correct"
        );
        manager.update();
    }

    manager.update();
    let last = positions.last().unwrap();
    assert_eq!(
        &Point::new(Fixed::from_raw(last[0]), Fixed::from_raw(last[1])),
        manager.mouse_point(),
        "Last mouse point should be preserved between updates"
    );
    assert_eq!(
        &Vector::new(u(0), u(0)),
        manager.mouse_motion(),
        "Mouse motion should be reset between updates"
    );
}

#[test]
fn deltatime_starts_and_resets_to_zero() {
    let mut dt = Deltatime::new();
    assert_eq!(dt.get(), Duration::new(0, 0));
    dt.update();
    dt.reset();
    assert_eq!(dt.get(), Duration::new(0, 0));
    let copy = dt.clone();
    assert_eq!(copy.get(), dt.get());
}

#[test]
fn camera_moves_its_anchor() {
    let mut camera = Camera::new(Size::new(u(100), u(100)));
    assert_eq!(*camera.point(), Point::new(u(0), u(0)));
    camera.move_to(&Point::new(u(10), u(20)));
    camera.move_by(&Vector::new(u(-4), u(2)));
    camera.move_x(u(1));
    camera.move_y(u(-1));
    assert_eq!(*camera.point(), Point::new(u(7), u(21)));
}

#[test]
fn camera_culls_and_offsets() {
    // Centered at the world origin, the viewport covers the square from
    // minus fifty to fifty; its drawing offset is plus fifty on each
    // axis.
    let camera = Camera::new(Size::new(u(100), u(100)));
    let visible = Rect::new_simple(u(10), u(10), u(10), u(10));
    let hidden = Rect::new_simple(u(60), u(60), u(10), u(10));
    assert_eq!(
        camera.visible_offset(&visible),
        Some(Vector::new(u(50), u(50)))
    );
    assert_eq!(camera.visible_offset(&hidden), None);
    assert_eq!(camera.top_left(), Point::new(u(-50), u(-50)));
}
