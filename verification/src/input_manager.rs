//! Per-frame keyboard and mouse bookkeeping.
//!
//! The embedding application translates its window library's key and
//! mouse-button identifiers to plain integer codes and feeds every event
//! into the manager; game code then asks which keys went down this frame,
//! which are still held, where the mouse is, and so on. One
//! [`InputManager::update`] call per tick clears the per-frame lists
//! while the held-key and held-button state carries over.

use vstd::prelude::*;
use crate::fixed::{units_trunc, Fixed};
use crate::point::Point;
use crate::vector::Vector;

verus! {

/// A mouse-button event: the button's integer code together with the
/// mouse position at which it happened.
#[derive(Clone, Copy, PartialEq, Eq, Structural, Debug)]
pub struct MouseButtonData {
    pub button: u32,
    pub point: Point,
}

impl MouseButtonData {
    /// A new event record for `button` at window position `(x, y)`.
    pub fn new(button: u32, x: Fixed, y: Fixed) -> (r: MouseButtonData)
        ensures
            r.button == button,
            r.point == (Point { x, y }),
    {
        MouseButtonData { button, point: Point::new(x, y) }
    }
}

/// Whether some event in the sequence is for `button`.
pub open spec fn contains_button(s: Seq<MouseButtonData>, button: u32) -> bool {
    exists|i: int| 0 <= i < s.len() && s[i].button == button
}

/// Whether a key code occurs in the sequence.
fn vec_contains_key(v: &Vec<u32>, key: u32) -> (r: bool)
    ensures
        r == v@.contains(key),
{
    let mut i: usize = 0;
    while i < v.len()
        invariant
            0 <= i <= v@.len(),
            forall|j: int| 0 <= j < i ==> v@[j] != key,
        decreases v@.len() - i,
    {
        if v[i] == key {
            return true;
        }
        i = i + 1;
    }
    false
}

/// The index of the first occurrence of a key code, if any.
fn vec_position_key(v: &Vec<u32>, key: u32) -> (r: Option<usize>)
    ensures
        match r {
            Some(i) => i < v@.len() && v@[i as int] == key && forall|j: int|
                0 <= j < i ==> v@[j] != key,
            None => !v@.contains(key),
        },
{
    let mut i: usize = 0;
    while i < v.len()
        invariant
            0 <= i <= v@.len(),
            forall|j: int| 0 <= j < i ==> v@[j] != key,
        decreases v@.len() - i,
    {
        if v[i] == key {
            return Some(i);
        }
        i = i + 1;
    }
    None
}

/// Whether some event in the vector is for `button`.
fn vec_contains_button(v: &Vec<MouseButtonData>, button: u32) -> (r: bool)
    ensures
        r == contains_button(v@, button),
{
    let mut i: usize = 0;
    while i < v.len()
        invariant
            0 <= i <= v@.len(),
            forall|j: int| 0 <= j < i ==> v@[j].button != button,
        decreases v@.len() - i,
    {
        if v[i].button == button {
            return true;
        }
        i = i + 1;
    }
    false
}

/// Keyboard and mouse state, maintained frame by frame. Key codes and
/// mouse-button codes are plain integers; the embedding application
/// chooses the numbering.
pub struct InputManager {
    keys_down: Vec<u32>,
    keys_up: Vec<u32>,
    keys_pressed: Vec<u32>,
    mouse_down: Vec<MouseButtonData>,
    mouse_up: Vec<MouseButtonData>,
    mouse_pressed: Vec<u32>,
    mouse_scroll: i32,
    mouse_point: Point,
    mouse_motion: Vector,
}

impl InputManager {
    /// The keys pushed down this frame, for specifications.
    pub closed spec fn spec_keys_down(&self) -> Seq<u32> {
        self.keys_down@
    }

    /// The keys released this frame, for specifications.
    pub closed spec fn spec_keys_up(&self) -> Seq<u32> {
        self.keys_up@
    }

    /// The keys currently held, for specifications.
    pub closed spec fn spec_keys_pressed(&self) -> Seq<u32> {
        self.keys_pressed@
    }

    /// The buttons pushed down this frame, for specifications.
    pub closed spec fn spec_mouse_down(&self) -> Seq<MouseButtonData> {
        self.mouse_down@
    }

    /// The buttons released this frame, for specifications.
    pub closed spec fn spec_mouse_up(&self) -> Seq<MouseButtonData> {
        self.mouse_up@
    }

    /// The buttons currently held, for specifications.
    pub closed spec fn spec_mouse_pressed(&self) -> Seq<u32> {
        self.mouse_pressed@
    }

    /// The vertical scroll total of this frame, for specifications.
    pub closed spec fn spec_mouse_scroll(&self) -> int {
        self.mouse_scroll as int
    }

    /// The mouse position, for specifications.
    pub closed spec fn spec_mouse_point(&self) -> Point {
        self.mouse_point
    }

    /// The mouse motion of this frame, for specifications.
    pub closed spec fn spec_mouse_motion(&self) -> Vector {
        self.mouse_motion
    }

    /// A fresh manager: nothing pressed, mouse at the window origin.
    pub fn new() -> (r: InputManager)
        ensures
            r.spec_keys_down() == Seq::<u32>::empty(),
            r.spec_keys_up() == Seq::<u32>::empty(),
            r.spec_keys_pressed() == Seq::<u32>::empty(),
            r.spec_mouse_down() == Seq::<MouseButtonData>::empty(),
            r.spec_mouse_up() == Seq::<MouseButtonData>::empty(),
            r.spec_mouse_pressed() == Seq::<u32>::empty(),
            r.spec_mouse_scroll() == 0,
            r.spec_mouse_point() == (Point { x: Fixed { raw: 0 }, y: Fixed { raw: 0 } }),
            r.spec_mouse_motion() == (Vector { x: Fixed { raw: 0 }, y: Fixed { raw: 0 } }),
    {
        InputManager {
            keys_down: Vec::new(),
            keys_up: Vec::new(),
            keys_pressed: Vec::new(),
            mouse_down: Vec::new(),
            mouse_up: Vec::new(),
            mouse_pressed: Vec::new(),
            mouse_scroll: 0,
            mouse_point: Point::new(Fixed::zero(), Fixed::zero()),
            mouse_motion: Vector::new(Fixed::zero(), Fixed::zero()),
        }
    }

    /// The key codes pushed down in this frame.
    pub fn keys_down(&self) -> (r: &Vec<u32>)
        ensures
            r@ == self.spec_keys_down(),
    {
        &self.keys_down
    }

    /// The key codes released in this frame.
    pub fn keys_up(&self) -> (r: &Vec<u32>)
        ensures
            r@ == self.spec_keys_up(),
    {
        &self.keys_up
    }

    /// The key codes currently held down.
    pub fn keys_pressed(&self) -> (r: &Vec<u32>)
        ensures
            r@ == self.spec_keys_pressed(),
    {
        &self.keys_pressed
    }

    /// Whether `key` was pushed down in this frame.
    pub fn has_key_down(&self, key: u32) -> (r: bool)
        ensures
            r == self.spec_keys_down().contains(key),
    {
        vec_contains_key(&self.keys_down, key)
    }

    /// Whether `key` was released in this frame.
    pub fn has_key_up(&self, key: u32) -> (r: bool)
        ensures
            r == self.spec_keys_up().contains(key),
    {
        vec_contains_key(&self.keys_up, key)
    }

    /// Whether `key` is currently held down.
    pub fn is_key_pressed(&self, key: u32) -> (r: bool)
        ensures
            r == self.spec_keys_pressed().contains(key),
    {
        vec_contains_key(&self.keys_pressed, key)
    }

    /// The button events of this frame's pushes, with their positions.
    pub fn mouse_down(&self) -> (r: &Vec<MouseButtonData>)
        ensures
            r@ == self.spec_mouse_down(),
    {
        &self.mouse_down
    }

    /// The button events of this frame's releases, with their positions.
    pub fn mouse_up(&self) -> (r: &Vec<MouseButtonData>)
        ensures
            r@ == self.spec_mouse_up(),
    {
        &self.mouse_up
    }

    /// The button codes currently held down.
    pub fn mouse_pressed(&self) -> (r: &Vec<u32>)
        ensures
            r@ == self.spec_mouse_pressed(),
    {
        &self.mouse_pressed
    }

    /// Whether `button` was pushed down in this frame.
    pub fn has_mouse_down(&self, button: u32) -> (r: bool)
        ensures
            r == contains_button(self.spec_mouse_down(), button),
    {
        vec_contains_button(&self.mouse_down, button)
    }

    /// Whether `button` was released in this frame.
    pub fn has_mouse_up(&self, button: u32) -> (r: bool)
        ensures
            r == contains_button(self.spec_mouse_up(), button),
    {
        vec_contains_button(&self.mouse_up, button)
    }

    /// Whether `button` is currently held down.
    pub fn is_mouse_pressed(&self, button: u32) -> (r: bool)
        ensures
            r == self.spec_mouse_pressed().contains(button),
    {
        vec_contains_key(&self.mouse_pressed, button)
    }

    /// The total vertical scroll of this frame: positive away from the
    /// user, negative towards the user.
    pub fn mouse_scroll(&self) -> (r: i32)
        ensures
            r as int == self.spec_mouse_scroll(),
    {
        self.mouse_scroll
    }

    /// The mouse position in the window.
    pub fn mouse_point(&self) -> (r: &Point)
        ensures
            *r == self.spec_mouse_point(),
    {
        &self.mouse_point
    }

    /// The mouse's movement relative to the previous frame.
    pub fn mouse_motion(&self) -> (r: &Vector)
        ensures
            *r == self.spec_mouse_motion(),
    {
        &self.mouse_motion
    }

    /// Record a key push. A repeat event changes nothing; otherwise the
    /// key joins this frame's pushes, and the held list if not already
    /// held.
    pub fn set_key_down(&mut self, keycode: u32, repeat: bool)
        ensures
            repeat ==> *final(self) == *old(self),
            !repeat ==> final(self).spec_keys_down() == old(self).spec_keys_down().push(keycode),
            !repeat ==> final(self).spec_keys_pressed() == if old(self).spec_keys_pressed().contains(keycode) {
                old(self).spec_keys_pressed()
            } else {
                old(self).spec_keys_pressed().push(keycode)
            },
            final(self).spec_keys_up() == old(self).spec_keys_up(),
            final(self).spec_mouse_down() == old(self).spec_mouse_down(),
            final(self).spec_mouse_up() == old(self).spec_mouse_up(),
            final(self).spec_mouse_pressed() == old(self).spec_mouse_pressed(),
            final(self).spec_mouse_scroll() == old(self).spec_mouse_scroll(),
            final(self).spec_mouse_point() == old(self).spec_mouse_point(),
            final(self).spec_mouse_motion() == old(self).spec_mouse_motion(),
    {
        if repeat {
            return;
        }
        if !vec_contains_key(&self.keys_pressed, keycode) {
            self.keys_pressed.push(keycode);
        }
        self.keys_down.push(keycode);
    }

    /// Record a key release: the key joins this frame's releases and
    /// leaves the held list, where its first entry is removed.
    pub fn set_key_up(&mut self, keycode: u32)
        ensures
            final(self).spec_keys_up() == old(self).spec_keys_up().push(keycode),
            old(self).spec_keys_pressed().contains(keycode) ==> exists|i: int|
                0 <= i < old(self).spec_keys_pressed().len() && old(self).spec_keys_pressed()[i]
                    == keycode && (forall|j: int|
                    0 <= j < i ==> old(self).spec_keys_pressed()[j] != keycode) && final(self).spec_keys_pressed() == old(self).spec_keys_pressed().remove(i),
            !old(self).spec_keys_pressed().contains(keycode) ==> final(self).spec_keys_pressed()
                == old(self).spec_keys_pressed(),
            final(self).spec_keys_down() == old(self).spec_keys_down(),
            final(self).spec_mouse_down() == old(self).spec_mouse_down(),
            final(self).spec_mouse_up() == old(self).spec_mouse_up(),
            final(self).spec_mouse_pressed() == old(self).spec_mouse_pressed(),
            final(self).spec_mouse_scroll() == old(self).spec_mouse_scroll(),
            final(self).spec_mouse_point() == old(self).spec_mouse_point(),
            final(self).spec_mouse_motion() == old(self).spec_mouse_motion(),
    {
        let index = vec_position_key(&self.keys_pressed, keycode);
        if let Some(i) = index {
            self.keys_pressed.remove(i);
        }
        self.keys_up.push(keycode);
    }

    /// Record a button push at `(x, y)`: the event joins this frame's
    /// pushes, and the button joins the held list if not already held.
    pub fn set_mouse_down(&mut self, mouse_button: u32, x: Fixed, y: Fixed)
        ensures
            final(self).spec_mouse_down() == old(self).spec_mouse_down().push(
                MouseButtonData { button: mouse_button, point: Point { x, y } },
            ),
            final(self).spec_mouse_pressed() == if old(self).spec_mouse_pressed().contains(
                mouse_button,
            ) {
                old(self).spec_mouse_pressed()
            } else {
                old(self).spec_mouse_pressed().push(mouse_button)
            },
            final(self).spec_keys_down() == old(self).spec_keys_down(),
            final(self).spec_keys_up() == old(self).spec_keys_up(),
            final(self).spec_keys_pressed() == old(self).spec_keys_pressed(),
            final(self).spec_mouse_up() == old(self).spec_mouse_up(),
            final(self).spec_mouse_scroll() == old(self).spec_mouse_scroll(),
            final(self).spec_mouse_point() == old(self).spec_mouse_point(),
            final(self).spec_mouse_motion() == old(self).spec_mouse_motion(),
    {
        let data = MouseButtonData::new(mouse_button, x, y);
        if !vec_contains_key(&self.mouse_pressed, mouse_button) {
            self.mouse_pressed.push(mouse_button);
        }
        self.mouse_down.push(data);
    }

    /// Record a button release at `(x, y)`: the event joins this frame's
    /// releases, and the button's first entry leaves the held list.
    pub fn set_mouse_up(&mut self, mouse_button: u32, x: Fixed, y: Fixed)
        ensures
            final(self).spec_mouse_up() == old(self).spec_mouse_up().push(
                MouseButtonData { button: mouse_button, point: Point { x, y } },
            ),
            old(self).spec_mouse_pressed().contains(mouse_button) ==> exists|i: int|
                0 <= i < old(self).spec_mouse_pressed().len() && old(self).spec_mouse_pressed()[i]
                    == mouse_button && (forall|j: int|
                    0 <= j < i ==> old(self).spec_mouse_pressed()[j] != mouse_button) && final(self).spec_mouse_pressed() == old(self).spec_mouse_pressed().remove(i),
            !old(self).spec_mouse_pressed().contains(mouse_button) ==> final(self).spec_mouse_pressed() == old(self).spec_mouse_pressed(),
            final(self).spec_keys_down() == old(self).spec_keys_down(),
            final(self).spec_keys_up() == old(self).spec_keys_up(),
            final(self).spec_keys_pressed() == old(self).spec_keys_pressed(),
            final(self).spec_mouse_down() == old(self).spec_mouse_down(),
            final(self).spec_mouse_scroll() == old(self).spec_mouse_scroll(),
            final(self).spec_mouse_point() == old(self).spec_mouse_point(),
            final(self).spec_mouse_motion() == old(self).spec_mouse_motion(),
    {
        let data = MouseButtonData::new(mouse_button, x, y);
        let index = vec_position_key(&self.mouse_pressed, mouse_button);
        if let Some(i) = index {
            self.mouse_pressed.remove(i);
        }
        self.mouse_up.push(data);
    }

    /// Add a scroll event's whole-unit vertical amount to this frame's
    /// scroll total.
    pub fn set_mouse_wheel(&mut self, _x: Fixed, y: Fixed)
        requires
            y@ != i64::MIN,
            i32::MIN <= units_trunc(y@) <= i32::MAX,
            i32::MIN <= old(self).spec_mouse_scroll() + units_trunc(y@) <= i32::MAX,
        ensures
            final(self).spec_mouse_scroll() == old(self).spec_mouse_scroll() + units_trunc(y@),
            final(self).spec_keys_down() == old(self).spec_keys_down(),
            final(self).spec_keys_up() == old(self).spec_keys_up(),
            final(self).spec_keys_pressed() == old(self).spec_keys_pressed(),
            final(self).spec_mouse_down() == old(self).spec_mouse_down(),
            final(self).spec_mouse_up() == old(self).spec_mouse_up(),
            final(self).spec_mouse_pressed() == old(self).spec_mouse_pressed(),
            final(self).spec_mouse_point() == old(self).spec_mouse_point(),
            final(self).spec_mouse_motion() == old(self).spec_mouse_motion(),
    {
        let units: i64 = y.trunc_units();
        self.mouse_scroll = self.mouse_scroll.checked_add(units as i32).unwrap();
    }

    /// Record mouse movement: the position is replaced, the relative
    /// motion accumulates until the next update.
    pub fn set_mouse_motion(&mut self, x: Fixed, y: Fixed, dx: Fixed, dy: Fixed)
        requires
            i64::MIN <= old(self).spec_mouse_motion().x@ + dx@ <= i64::MAX,
            i64::MIN <= old(self).spec_mouse_motion().y@ + dy@ <= i64::MAX,
        ensures
            final(self).spec_mouse_point() == (Point { x, y }),
            final(self).spec_mouse_motion().x@ == old(self).spec_mouse_motion().x@ + dx@,
            final(self).spec_mouse_motion().y@ == old(self).spec_mouse_motion().y@ + dy@,
            final(self).spec_keys_down() == old(self).spec_keys_down(),
            final(self).spec_keys_up() == old(self).spec_keys_up(),
            final(self).spec_keys_pressed() == old(self).spec_keys_pressed(),
            final(self).spec_mouse_down() == old(self).spec_mouse_down(),
            final(self).spec_mouse_up() == old(self).spec_mouse_up(),
            final(self).spec_mouse_pressed() == old(self).spec_mouse_pressed(),
            final(self).spec_mouse_scroll() == old(self).spec_mouse_scroll(),
    {
        self.mouse_point = Point::new(x, y);
        self.mouse_motion = Vector::new(self.mouse_motion.x.plus(dx), self.mouse_motion.y.plus(dy));
    }

    /// Start a new frame: the per-frame pushes, releases, scroll and
    /// motion are cleared; the held keys and buttons and the mouse
    /// position carry over.
    pub fn update(&mut self)
        ensures
            final(self).spec_keys_down() == Seq::<u32>::empty(),
            final(self).spec_keys_up() == Seq::<u32>::empty(),
            final(self).spec_mouse_down() == Seq::<MouseButtonData>::empty(),
            final(self).spec_mouse_up() == Seq::<MouseButtonData>::empty(),
            final(self).spec_mouse_scroll() == 0,
            final(self).spec_mouse_motion() == (Vector {
                x: Fixed { raw: 0 },
                y: Fixed { raw: 0 },
            }),
            final(self).spec_keys_pressed() == old(self).spec_keys_pressed(),
            final(self).spec_mouse_pressed() == old(self).spec_mouse_pressed(),
            final(self).spec_mouse_point() == old(self).spec_mouse_point(),
    {
        self.keys_down.clear();
        self.keys_up.clear();
        self.mouse_down.clear();
        self.mouse_up.clear();
        self.mouse_scroll = 0;
        self.mouse_motion = Vector::new(Fixed::zero(), Fixed::zero());
    }
}

} // verus!
