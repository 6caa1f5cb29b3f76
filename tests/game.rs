use sword_spinner::arena::{obstacles, player_spawn, sword_spawn, walls, Block};
use sword_spinner::controls::{key_heading, spin_requested, steer, steer_drag, Heading, MoveKeys, Steering};
use sword_spinner::layers::{bodies_collide, Body, Layers};
use sword_spinner::touch::{update_touch_state, GestureState, TouchEvent, TouchState, DOUBLE_TAP_WINDOW_NS};

const MS: u64 = 1_000_000;

fn keys(up: bool, down: bool, left: bool, right: bool) -> MoveKeys {
    MoveKeys { up, down, left, right }
}

#[test]
fn test_touch_state_updates() {
    let mut touch_state = TouchState::default();
    assert!(!touch_state.is_active, "Touch should start inactive");

    // no touch input source at all, as in a headless run
    update_touch_state(&mut touch_state, None);
    assert!(!touch_state.is_active, "Touch should remain inactive with no input");
}

#[test]
fn touch_state_follows_held_finger() {
    let mut s = TouchState::default();
    update_touch_state(&mut s, Some(true));
    assert!(s.is_active);
    update_touch_state(&mut s, Some(false));
    assert!(!s.is_active);
    update_touch_state(&mut s, Some(true));
    update_touch_state(&mut s, None);
    assert!(!s.is_active);
}

#[test]
fn body_masks_are_exact() {
    assert_eq!(Body::Player.layers(), Layers { memberships: 0b0001, filters: 0b1100 });
    assert_eq!(Body::Sword.layers(), Layers { memberships: 0b0010, filters: 0b1100 });
    assert_eq!(Body::Wall.layers(), Layers { memberships: 0b0100, filters: 0b1011 });
    assert_eq!(Body::Obstacle.layers(), Layers { memberships: 0b1000, filters: 0b0111 });
}

#[test]
fn sword_never_hits_player() {
    assert!(!bodies_collide(Body::Player, Body::Sword));
    assert!(!bodies_collide(Body::Sword, Body::Player));
}

#[test]
fn contact_table() {
    let all = [Body::Player, Body::Sword, Body::Wall, Body::Obstacle];
    for a in all {
        for b in all {
            let fighters = (a == Body::Player && b == Body::Sword) || (a == Body::Sword && b == Body::Player);
            assert_eq!(bodies_collide(a, b), a != b && !fighters, "{:?} / {:?}", a, b);
            assert_eq!(bodies_collide(a, b), bodies_collide(b, a));
        }
    }
    assert!(bodies_collide(Body::Sword, Body::Obstacle));
    assert!(bodies_collide(Body::Player, Body::Wall));
    assert!(bodies_collide(Body::Wall, Body::Obstacle));
    assert!(!bodies_collide(Body::Obstacle, Body::Obstacle));
    assert!(!bodies_collide(Body::Wall, Body::Wall));
}

#[test]
fn heading_from_keys() {
    assert_eq!(key_heading(keys(false, false, false, false)), Heading { x: 0, y: 0 });
    assert_eq!(key_heading(keys(true, false, false, false)), Heading { x: 0, y: 1 });
    assert_eq!(key_heading(keys(false, true, true, false)), Heading { x: -1, y: -1 });
    assert_eq!(key_heading(keys(true, false, false, true)), Heading { x: 1, y: 1 });
    // opposite keys cancel
    assert_eq!(key_heading(keys(true, true, true, true)), Heading { x: 0, y: 0 });
    assert_eq!(key_heading(keys(true, true, false, true)), Heading { x: 1, y: 0 });
}

#[test]
fn keyboard_wins_over_touch() {
    assert_eq!(steer(keys(false, false, true, false), true), Steering::Keys(Heading { x: -1, y: 0 }));
    assert_eq!(steer(keys(false, false, false, false), true), Steering::Touch);
    assert_eq!(steer(keys(false, false, false, false), false), Steering::Halt);
    assert_eq!(steer(keys(false, false, true, true), true), Steering::Touch);
    assert_eq!(steer(keys(true, true, false, false), false), Steering::Halt);
}

#[test]
fn drag_wins_over_keyboard() {
    assert_eq!(steer_drag(keys(true, false, false, false), true), Steering::Touch);
    assert_eq!(steer_drag(keys(true, false, false, false), false), Steering::Keys(Heading { x: 0, y: 1 }));
    assert_eq!(steer_drag(keys(false, false, false, false), false), Steering::Halt);
}

#[test]
fn spin_on_any_trigger() {
    assert!(!spin_requested(false, false, false));
    assert!(spin_requested(true, false, false));
    assert!(spin_requested(false, true, false));
    assert!(spin_requested(false, false, true));
}

#[test]
fn gesture_starts_empty() {
    let g: GestureState<(f32, f32)> = GestureState::new();
    assert!(g.last_tap.is_none());
    assert!(!g.double_tap_detected);
    assert_eq!(g.double_tap_window_ns, 300 * MS);
    assert_eq!(DOUBLE_TAP_WINDOW_NS, 300 * MS);
    assert!(g.touch_start_position.is_none());
    assert!(!g.is_dragging);
    assert!(g.current_touch_position.is_none());
}

#[test]
fn two_quick_taps_make_double_tap() {
    let mut g: GestureState<(f32, f32)> = GestureState::new();
    g.register_tap(1000 * MS, (5.0, 5.0), false);
    assert_eq!(g.last_tap, Some((1000 * MS, (5.0, 5.0))));
    assert!(!g.double_tap_detected);
    g.register_tap(1200 * MS, (10.0, 5.0), true);
    assert!(g.double_tap_detected);
    assert!(g.last_tap.is_none());
    assert!(g.consume_double_tap());
    assert!(!g.consume_double_tap());
}

#[test]
fn window_edge_is_inclusive() {
    let mut g: GestureState<(f32, f32)> = GestureState::new();
    g.register_tap(0, (0.0, 0.0), false);
    g.register_tap(300 * MS, (0.0, 0.0), true);
    assert!(g.double_tap_detected);

    let mut g: GestureState<(f32, f32)> = GestureState::new();
    g.register_tap(0, (0.0, 0.0), false);
    g.register_tap(300 * MS + 1, (1.0, 0.0), true);
    assert!(!g.double_tap_detected);
    // the late tap waits in place of the first
    assert_eq!(g.last_tap, Some((300 * MS + 1, (1.0, 0.0))));
}

#[test]
fn far_tap_does_not_pair() {
    let mut g: GestureState<(f32, f32)> = GestureState::new();
    g.register_tap(0, (0.0, 0.0), false);
    g.register_tap(100 * MS, (200.0, 0.0), false);
    assert!(!g.double_tap_detected);
    assert_eq!(g.last_tap, Some((100 * MS, (200.0, 0.0))));
}

#[test]
fn earlier_clock_reading_counts_as_no_pause() {
    let mut g: GestureState<(f32, f32)> = GestureState::new();
    g.register_tap(500 * MS, (0.0, 0.0), false);
    g.register_tap(400 * MS, (0.0, 0.0), true);
    assert!(g.double_tap_detected);
}

#[test]
fn third_tap_starts_afresh() {
    let mut g: GestureState<(f32, f32)> = GestureState::new();
    g.register_tap(0, (0.0, 0.0), false);
    g.register_tap(100 * MS, (0.0, 0.0), true);
    assert!(g.consume_double_tap());
    g.register_tap(200 * MS, (0.0, 0.0), true);
    assert!(!g.double_tap_detected);
    assert_eq!(g.last_tap, Some((200 * MS, (0.0, 0.0))));
}

#[test]
fn touch_events_tap_and_drag() {
    let mut g: GestureState<(f32, f32)> = GestureState::new();
    // a still touch is a tap
    g.handle_touch(0, TouchEvent::Started(Some((1.0, 2.0))));
    assert_eq!(g.touch_start_position, Some((1.0, 2.0)));
    assert_eq!(g.current_touch_position, Some((1.0, 2.0)));
    g.handle_touch(50 * MS, TouchEvent::Ended(Some((1.0, 2.0)), false));
    assert_eq!(g.last_tap, Some((50 * MS, (1.0, 2.0))));
    assert!(g.touch_start_position.is_none());
    assert!(g.current_touch_position.is_none());

    // a dragged touch is no tap
    g.handle_touch(100 * MS, TouchEvent::Started(Some((1.0, 2.0))));
    g.handle_touch(120 * MS, TouchEvent::Moved(Some((5.0, 2.0)), false));
    assert!(!g.is_dragging);
    assert_eq!(g.current_touch_position, Some((5.0, 2.0)));
    g.handle_touch(140 * MS, TouchEvent::Moved(Some((40.0, 2.0)), true));
    assert!(g.is_dragging);
    g.handle_touch(150 * MS, TouchEvent::Moved(Some((3.0, 2.0)), false));
    assert!(g.is_dragging);
    g.handle_touch(200 * MS, TouchEvent::Ended(Some((3.0, 2.0)), true));
    assert!(!g.double_tap_detected);
    assert!(!g.is_dragging);
    assert_eq!(g.last_tap, Some((50 * MS, (1.0, 2.0))));

    // a second still touch near the first tap completes a double tap
    g.handle_touch(250 * MS, TouchEvent::Started(Some((1.0, 2.0))));
    g.handle_touch(300 * MS, TouchEvent::Ended(Some((1.0, 2.0)), true));
    assert!(g.double_tap_detected);
}

#[test]
fn unmapped_touch_points_are_ignored() {
    let mut g: GestureState<(f32, f32)> = GestureState::new();
    g.handle_touch(0, TouchEvent::Started(None));
    assert!(g.touch_start_position.is_none());
    g.handle_touch(10 * MS, TouchEvent::Moved(None, true));
    assert!(!g.is_dragging);
    assert!(g.current_touch_position.is_none());
    g.handle_touch(20 * MS, TouchEvent::Ended(None, false));
    assert!(g.last_tap.is_none());
    g.handle_touch(30 * MS, TouchEvent::Canceled);
    assert!(g.last_tap.is_none());
}

#[test]
fn arena_layout() {
    let w = walls();
    assert_eq!(w.len(), 4);
    assert_eq!(w[0], Block { x: 0, y: 300, width: 800, height: 20 });
    assert_eq!(w[1], Block { x: 0, y: -300, width: 800, height: 20 });
    assert_eq!(w[2], Block { x: -400, y: 0, width: 20, height: 600 });
    assert_eq!(w[3], Block { x: 400, y: 0, width: 20, height: 600 });
    let o = obstacles();
    let expected = [(150, 100), (-150, -100), (200, -150), (-200, 150), (0, 200)];
    assert_eq!(o.len(), expected.len());
    for (b, (x, y)) in o.iter().zip(expected.iter()) {
        assert_eq!(*b, Block { x: *x, y: *y, width: 30, height: 30 });
        // strictly inside the inner faces of the walls
        assert!(2 * b.x.abs() + b.width < 780 && 2 * b.y.abs() + b.height < 580);
    }
    assert_eq!(player_spawn(), Block { x: 0, y: 0, width: 40, height: 40 });
    assert_eq!(sword_spawn(), Block { x: 60, y: 0, width: 90, height: 10 });
}
