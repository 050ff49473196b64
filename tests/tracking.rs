use window_anchor::{
    clear_anchor, set_anchor, tick, Action, FollowerView, Observation, Offset, Point, Shared,
    TargetView, Tracker, WindowHandle,
};

const TARGET: WindowHandle = WindowHandle { raw: 77 };

fn target(origin: Point, minimized: bool) -> Option<TargetView> {
    Some(TargetView { handle: TARGET, alive: true, minimized, origin: Some(origin) })
}

fn obs(follower: Point, origin: Point) -> Observation {
    Observation {
        follower: Some(FollowerView { minimized: false, position: follower }),
        main_minimized: None,
        target: target(origin, false),
    }
}

fn minimize_obs(follower_min: bool, target_min: bool) -> Observation {
    Observation {
        follower: Some(FollowerView { minimized: follower_min, position: Point::new(0, 0) }),
        main_minimized: None,
        target: target(Point::new(0, 0), target_min),
    }
}

/// Anchors at offset (10, 20) from a target at (100, 100) and runs the first tick.
fn anchored() -> (Shared, Tracker) {
    let mut s = Shared::new();
    let mut t = Tracker::new();
    set_anchor(&mut s, TARGET, "Target".to_string(), Point::new(110, 120), Some(Point::new(100, 100)));
    assert_eq!(tick(&mut s, &mut t, &obs(Point::new(110, 120), Point::new(100, 100))), Action::Wait);
    (s, t)
}

fn offset(s: &Shared) -> Offset {
    s.anchor.as_ref().unwrap().offset
}

#[test]
fn follower_moves_with_target_by_same_vector() {
    let (mut s, mut t) = anchored();
    let a = tick(&mut s, &mut t, &obs(Point::new(110, 120), Point::new(130, 95)));
    assert_eq!(a, Action::MoveFollower(Point::new(140, 115)));
    let a = tick(&mut s, &mut t, &obs(Point::new(140, 115), Point::new(125, 195)));
    assert_eq!(a, Action::MoveFollower(Point::new(135, 215)));
    assert_eq!(offset(&s), Offset { dx: 10, dy: 20 });
}

#[test]
fn first_tick_after_anchor_is_not_a_drag() {
    let mut s = Shared::new();
    let mut t = Tracker::new();
    t.last = Point::new(-999, -999);
    set_anchor(&mut s, TARGET, "Target".to_string(), Point::new(110, 120), Some(Point::new(100, 100)));
    let a = tick(&mut s, &mut t, &obs(Point::new(0, 0), Point::new(100, 100)));
    assert_eq!(a, Action::MoveFollower(Point::new(110, 120)));
    assert_eq!(offset(&s), Offset { dx: 10, dy: 20 });
    assert!(!t.first_run);
    assert_eq!(t.last, Point::new(110, 120));
}

#[test]
fn user_drag_recomputes_offset_without_snap_back() {
    let (mut s, mut t) = anchored();
    let a = tick(&mut s, &mut t, &obs(Point::new(300, 50), Point::new(100, 100)));
    assert_eq!(a, Action::Wait);
    assert_eq!(offset(&s), Offset { dx: 200, dy: -50 });
    let a = tick(&mut s, &mut t, &obs(Point::new(300, 50), Point::new(100, 100)));
    assert_eq!(a, Action::Wait);
    let a = tick(&mut s, &mut t, &obs(Point::new(300, 50), Point::new(110, 100)));
    assert_eq!(a, Action::MoveFollower(Point::new(310, 50)));
}

#[test]
fn user_minimized_follower_stays_minimized() {
    let (mut s, mut t) = anchored();
    assert!(!s.loop_minimized);
    assert_eq!(tick(&mut s, &mut t, &minimize_obs(true, true)), Action::Wait);
    assert_eq!(tick(&mut s, &mut t, &minimize_obs(true, false)), Action::Wait);
    assert_eq!(tick(&mut s, &mut t, &minimize_obs(true, false)), Action::Wait);
    assert!(!s.loop_minimized);
}

#[test]
fn loop_minimized_follower_is_restored() {
    let (mut s, mut t) = anchored();
    assert_eq!(tick(&mut s, &mut t, &minimize_obs(false, true)), Action::MinimizeFollower);
    assert!(s.loop_minimized);
    assert_eq!(tick(&mut s, &mut t, &minimize_obs(true, true)), Action::Wait);
    assert!(s.loop_minimized);
    assert_eq!(tick(&mut s, &mut t, &minimize_obs(true, false)), Action::RestoreFollower);
    assert!(!s.loop_minimized);
    assert!(s.anchor.is_some());
}

#[test]
fn lost_target_clears_anchor_and_reports_once() {
    let (mut s, mut t) = anchored();
    let mut o = obs(Point::new(110, 120), Point::new(100, 100));
    o.target = Some(TargetView { handle: TARGET, alive: false, minimized: false, origin: None });
    assert_eq!(tick(&mut s, &mut t, &o), Action::AnchorLost);
    assert!(s.anchor.is_none());
    assert_eq!(tick(&mut s, &mut t, &o), Action::Wait);
    assert_eq!(tick(&mut s, &mut t, &o), Action::Wait);
}

#[test]
fn no_stale_offset_after_clear() {
    let (mut s, mut t) = anchored();
    clear_anchor(&mut s);
    for i in 0..5 {
        let a = tick(&mut s, &mut t, &obs(Point::new(0, 0), Point::new(100 + i, 100)));
        assert_eq!(a, Action::Wait);
        assert!(t.first_run);
    }
    assert!(s.anchor.is_none());
}

#[test]
fn idle_without_global_mode_does_nothing() {
    let mut s = Shared::new();
    let mut t = Tracker::new();
    t.first_run = false;
    let o = Observation {
        follower: Some(FollowerView { minimized: false, position: Point::new(0, 0) }),
        main_minimized: Some(true),
        target: None,
    };
    assert_eq!(tick(&mut s, &mut t, &o), Action::Wait);
    assert!(t.first_run);
    assert!(!s.loop_minimized);
}

#[test]
fn global_mode_mirrors_main_window() {
    let mut s = Shared::new();
    let mut t = Tracker::new();
    s.set_global_mode();
    let o = |main: bool, follower: bool| Observation {
        follower: Some(FollowerView { minimized: follower, position: Point::new(0, 0) }),
        main_minimized: Some(main),
        target: None,
    };
    assert_eq!(tick(&mut s, &mut t, &o(true, false)), Action::MinimizeFollower);
    assert!(s.loop_minimized);
    assert_eq!(tick(&mut s, &mut t, &o(false, true)), Action::RestoreFollower);
    assert!(!s.loop_minimized);
    assert_eq!(tick(&mut s, &mut t, &o(false, true)), Action::Wait);
    assert_eq!(tick(&mut s, &mut t, &o(false, false)), Action::Wait);
    let missing = Observation { follower: None, main_minimized: Some(true), target: None };
    assert_eq!(tick(&mut s, &mut t, &missing), Action::Wait);
}

#[test]
fn missing_follower_or_stale_target_skips_tick() {
    let (mut s, mut t) = anchored();
    let mut o = obs(Point::new(0, 0), Point::new(500, 500));
    o.follower = None;
    assert_eq!(tick(&mut s, &mut t, &o), Action::Wait);
    let mut o = obs(Point::new(0, 0), Point::new(500, 500));
    o.target = Some(TargetView { handle: WindowHandle { raw: 1 }, alive: false, minimized: false, origin: None });
    assert_eq!(tick(&mut s, &mut t, &o), Action::Wait);
    assert!(s.anchor.is_some());
    let mut o = obs(Point::new(0, 0), Point::new(500, 500));
    o.target = None;
    assert_eq!(tick(&mut s, &mut t, &o), Action::Wait);
    assert_eq!(offset(&s), Offset { dx: 10, dy: 20 });
}

#[test]
fn unknown_target_rect_skips_move() {
    let (mut s, mut t) = anchored();
    let mut o = obs(Point::new(110, 120), Point::new(0, 0));
    o.target = Some(TargetView { handle: TARGET, alive: true, minimized: false, origin: None });
    assert_eq!(tick(&mut s, &mut t, &o), Action::Wait);
    assert_eq!(offset(&s), Offset { dx: 10, dy: 20 });
}

#[test]
fn unrepresentable_position_is_not_applied() {
    let (mut s, mut t) = anchored();
    let a = tick(&mut s, &mut t, &obs(Point::new(110, 120), Point::new(i32::MAX, 100)));
    assert_eq!(a, Action::Wait);
    assert_eq!(t.last, Point::new(110, 120));
}
