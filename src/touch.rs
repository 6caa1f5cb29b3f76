use vstd::prelude::*;

verus! {

/// Whether a finger is currently steering the player.
#[derive(Clone, Copy, Debug, PartialEq, Eq, Structural)]
pub struct TouchState {
    pub is_active: bool,
}

impl Default for TouchState {
    fn default() -> (r: Self)
        ensures
            !r.is_active,
    {
        TouchState { is_active: false }
    }
}

/// Refresh the touch state from the frame's input. `touch_held` is `None` when
/// no touch input exists at all (a desktop or a headless run), otherwise whether
/// some finger is pressed.
pub fn update_touch_state(state: &mut TouchState, touch_held: Option<bool>)
    ensures
        final(state).is_active == (touch_held == Some(true)),
{
    match touch_held {
        Some(held) => {
            state.is_active = held;
        },
        None => {
            state.is_active = false;
        },
    }
}

/// The longest pause between two taps that still makes a double tap: 300 ms.
pub const DOUBLE_TAP_WINDOW_NS: u64 = 300_000_000;

/// Touch gesture tracking: taps, double taps and drags.
///
/// Times are nanoseconds on one monotonic clock. Positions are world positions
/// of any type `P`; distances between them are measured by the caller, which
/// passes the outcome of each comparison along with the event.
pub struct GestureState<P> {
    /// Time and place of a single tap still waiting for its partner.
    pub last_tap: Option<(u64, P)>,
    pub double_tap_detected: bool,
    pub double_tap_window_ns: u64,
    pub touch_start_position: Option<P>,
    pub is_dragging: bool,
    pub current_touch_position: Option<P>,
}

/// Nanoseconds from `earlier` to `later`, or zero when `later` comes first.
pub open spec fn elapsed(later: u64, earlier: u64) -> int {
    if later >= earlier {
        later - earlier
    } else {
        0
    }
}

/// Whether a tap at `now` completes a double tap with the waiting one, given
/// whether it landed near that one.
pub open spec fn completes_double<P>(last: Option<(u64, P)>, window: u64, now: u64, near_last: bool) -> bool {
    match last {
        Some((t, _)) => elapsed(now, t) <= window && near_last,
        None => false,
    }
}

/// The state after a tap at `now` and `position`: a tap that completes a double
/// tap marks it and clears the waiting tap, so a third tap starts afresh; any
/// other tap becomes the waiting one.
pub open spec fn tapped<P>(s: GestureState<P>, now: u64, position: P, near_last: bool) -> GestureState<P> {
    if completes_double(s.last_tap, s.double_tap_window_ns, now, near_last) {
        GestureState { double_tap_detected: true, last_tap: None, ..s }
    } else {
        GestureState { last_tap: Some((now, position)), ..s }
    }
}

/// A phase of one finger's touch, with what the caller measured for it.
pub enum TouchEvent<P> {
    /// The finger went down; the world position, if the screen point maps to one.
    Started(Option<P>),
    /// The finger moved; its world position, if any, and whether that lies
    /// beyond the drag distance from where the touch started.
    Moved(Option<P>, bool),
    /// The finger lifted; its world position, if any, and whether that lies
    /// within the tap distance of the waiting tap.
    Ended(Option<P>, bool),
    /// The system took the touch away.
    Canceled,
}

/// The state after one touch event at time `now`. A touch that ends without
/// having been dragged counts as a tap; every ended touch forgets its start,
/// its current position and its drag.
pub open spec fn after_event<P>(s: GestureState<P>, now: u64, ev: TouchEvent<P>) -> GestureState<P> {
    match ev {
        TouchEvent::Started(Some(w)) => GestureState {
            touch_start_position: Some(w),
            current_touch_position: Some(w),
            is_dragging: false,
            ..s
        },
        TouchEvent::Moved(Some(w), beyond_drag) => GestureState {
            current_touch_position: Some(w),
            is_dragging: s.is_dragging || (s.touch_start_position.is_some() && beyond_drag),
            ..s
        },
        TouchEvent::Ended(pos, near_last) => {
            let t = if !s.is_dragging && pos.is_some() {
                tapped(s, now, pos.unwrap(), near_last)
            } else {
                s
            };
            GestureState {
                touch_start_position: None,
                current_touch_position: None,
                is_dragging: false,
                ..t
            }
        },
        _ => s,
    }
}

impl<P: Copy> GestureState<P> {
    pub fn new() -> (r: Self)
        ensures
            r.last_tap.is_none(),
            !r.double_tap_detected,
            r.double_tap_window_ns == DOUBLE_TAP_WINDOW_NS,
            r.touch_start_position.is_none(),
            !r.is_dragging,
            r.current_touch_position.is_none(),
    {
        GestureState {
            last_tap: None,
            double_tap_detected: false,
            double_tap_window_ns: DOUBLE_TAP_WINDOW_NS,
            touch_start_position: None,
            is_dragging: false,
            current_touch_position: None,
        }
    }

    /// Record a tap at time `now` and `position`; `near_last` tells whether it
    /// lies within the tap distance of the waiting tap.
    pub fn register_tap(&mut self, now: u64, position: P, near_last: bool)
        ensures
            *final(self) == tapped(*old(self), now, position, near_last),
    {
        if let Some((last_time, _)) = self.last_tap {
            let diff: u64 = if now >= last_time {
                now - last_time
            } else {
                0
            };
            if diff <= self.double_tap_window_ns && near_last {
                self.double_tap_detected = true;
                self.last_tap = None;
                return;
            }
        }
        self.last_tap = Some((now, position));
    }

    /// Follow one touch event at time `now`.
    pub fn handle_touch(&mut self, now: u64, ev: TouchEvent<P>)
        ensures
            *final(self) == after_event(*old(self), now, ev),
    {
        match ev {
            TouchEvent::Started(Some(w)) => {
                self.touch_start_position = Some(w);
                self.current_touch_position = Some(w);
                self.is_dragging = false;
            },
            TouchEvent::Moved(Some(w), beyond_drag) => {
                self.current_touch_position = Some(w);
                if self.touch_start_position.is_some() && beyond_drag {
                    self.is_dragging = true;
                }
            },
            TouchEvent::Ended(pos, near_last) => {
                if !self.is_dragging {
                    if let Some(w) = pos {
                        self.register_tap(now, w, near_last);
                    }
                }
                self.touch_start_position = None;
                self.current_touch_position = None;
                self.is_dragging = false;
            },
            _ => {},
        }
    }

    /// Report whether a double tap was seen since the last call, and forget it.
    pub fn consume_double_tap(&mut self) -> (r: bool)
        ensures
            r == old(self).double_tap_detected,
            *final(self) == (GestureState { double_tap_detected: false, ..*old(self) }),
    {
        let detected = self.double_tap_detected;
        self.double_tap_detected = false;
        detected
    }
}

/// Two taps close in time and place after a quiet spell make a double tap.
pub proof fn lemma_two_quick_taps_double<P>(s: GestureState<P>, t1: u64, p1: P, n1: bool, t2: u64, p2: P)
    requires
        s.last_tap.is_none(),
        t1 <= t2,
        t2 - t1 <= s.double_tap_window_ns,
    ensures
        tapped(tapped(s, t1, p1, n1), t2, p2, true).double_tap_detected,
        tapped(tapped(s, t1, p1, n1), t2, p2, true).last_tap.is_none(),
{
}

/// The tap after a double tap never completes another one: it waits afresh.
pub proof fn lemma_no_triple_tap<P>(s: GestureState<P>, t1: u64, p1: P, n1: bool, t2: u64, p2: P, n2: bool)
    requires
        completes_double(s.last_tap, s.double_tap_window_ns, t1, n1),
    ensures
        !completes_double(tapped(s, t1, p1, n1).last_tap, s.double_tap_window_ns, t2, n2),
        tapped(tapped(s, t1, p1, n1), t2, p2, n2).last_tap == Some((t2, p2)),
{
}

/// A touch that was dragged does not count as a tap when it ends.
pub proof fn lemma_drag_is_no_tap<P>(s: GestureState<P>, now: u64, pos: Option<P>, near_last: bool)
    requires
        s.is_dragging,
    ensures
        after_event(s, now, TouchEvent::Ended(pos, near_last)).last_tap == s.last_tap,
        after_event(s, now, TouchEvent::Ended(pos, near_last)).double_tap_detected
            == s.double_tap_detected,
        !after_event(s, now, TouchEvent::Ended(pos, near_last)).is_dragging,
{
}

/// A drag lasts until the touch ends: moving the finger never undoes it.
pub proof fn lemma_drag_persists<P>(s: GestureState<P>, now: u64, ev: TouchEvent<P>)
    requires
        s.is_dragging,
        ev is Moved,
    ensures
        after_event(s, now, ev).is_dragging,
{
}

} // verus!
