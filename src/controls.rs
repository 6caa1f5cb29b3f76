use vstd::prelude::*;

verus! {

/// Which movement keys are held this frame (W or Up, S or Down, A or Left, D or Right).
#[derive(Clone, Copy, Debug, PartialEq, Eq, Structural)]
pub struct MoveKeys {
    pub up: bool,
    pub down: bool,
    pub left: bool,
    pub right: bool,
}

/// A grid direction: each component is -1, 0 or 1, with y pointing up.
#[derive(Clone, Copy, Debug, PartialEq, Eq, Structural)]
pub struct Heading {
    pub x: i8,
    pub y: i8,
}

/// Where the player's velocity comes from this frame.
#[derive(Clone, Copy, Debug, PartialEq, Eq, Structural)]
pub enum Steering {
    /// Move along the keyboard heading, which is never zero here.
    Keys(Heading),
    /// Move along the touch or drag direction.
    Touch,
    /// Stand still.
    Halt,
}

/// One held key pushes towards its side; two opposite keys cancel out.
pub open spec fn axis(toward: bool, away: bool) -> int {
    (if toward { 1int } else { 0int }) - (if away { 1int } else { 0int })
}

pub open spec fn heading_of(keys: MoveKeys) -> Heading {
    Heading { x: axis(keys.right, keys.left) as i8, y: axis(keys.up, keys.down) as i8 }
}

pub open spec fn is_still(h: Heading) -> bool {
    h.x == 0 && h.y == 0
}

/// The heading the movement keys ask for.
pub fn key_heading(keys: MoveKeys) -> (r: Heading)
    ensures
        r == heading_of(keys),
        r.x as int == axis(keys.right, keys.left),
        r.y as int == axis(keys.up, keys.down),
{
    let mut x: i8 = 0;
    let mut y: i8 = 0;
    if keys.up {
        y = y + 1;
    }
    if keys.down {
        y = y - 1;
    }
    if keys.left {
        x = x - 1;
    }
    if keys.right {
        x = x + 1;
    }
    Heading { x, y }
}

/// Steering where the keyboard wins: touch steers only while no movement key
/// heading is held and a touch is active.
pub fn steer(keys: MoveKeys, touch_active: bool) -> (r: Steering)
    ensures
        !is_still(heading_of(keys)) ==> r == Steering::Keys(heading_of(keys)),
        is_still(heading_of(keys)) && touch_active ==> r == Steering::Touch,
        is_still(heading_of(keys)) && !touch_active ==> r == Steering::Halt,
{
    let h = key_heading(keys);
    if h.x != 0 || h.y != 0 {
        Steering::Keys(h)
    } else if touch_active {
        Steering::Touch
    } else {
        Steering::Halt
    }
}

/// Steering where dragging wins: a drag whose target lies far enough from the
/// player overrides the keys.
pub fn steer_drag(keys: MoveKeys, drag_reaches: bool) -> (r: Steering)
    ensures
        drag_reaches ==> r == Steering::Touch,
        !drag_reaches && !is_still(heading_of(keys)) ==> r == Steering::Keys(heading_of(keys)),
        !drag_reaches && is_still(heading_of(keys)) ==> r == Steering::Halt,
{
    if drag_reaches {
        Steering::Touch
    } else {
        let h = key_heading(keys);
        if h.x != 0 || h.y != 0 {
            Steering::Keys(h)
        } else {
            Steering::Halt
        }
    }
}

/// The sword spins when Space or the left mouse button went down this frame,
/// or a double tap was seen.
pub fn spin_requested(space_pressed: bool, click_pressed: bool, double_tap: bool) -> (r: bool)
    ensures
        r == (space_pressed || click_pressed || double_tap),
{
    space_pressed || click_pressed || double_tap
}

/// A keyboard heading is never longer than one step along each axis.
pub proof fn lemma_heading_bounded(keys: MoveKeys)
    ensures
        -1 <= heading_of(keys).x <= 1,
        -1 <= heading_of(keys).y <= 1,
{
}

/// Holding both keys of an axis is the same as holding neither.
pub proof fn lemma_opposite_keys_cancel(keys: MoveKeys)
    ensures
        heading_of(keys) == heading_of(
            MoveKeys { up: keys.up && !keys.down, down: keys.down && !keys.up, ..keys },
        ),
        heading_of(keys) == heading_of(
            MoveKeys { left: keys.left && !keys.right, right: keys.right && !keys.left, ..keys },
        ),
{
}

} // verus!
