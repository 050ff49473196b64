use vstd::prelude::*;
use crate::geometry::{Point, WindowHandle, offset_between, shifted, offset_of, shift};
use crate::anchor::{AnchorState, Link, Model, Shared};

verus! {

/// What the host should do to the follower after a tick.
#[derive(Clone, Copy, Debug, PartialEq, Eq, Structural)]
pub enum Action {
    /// Nothing this tick.
    Wait,
    /// Minimize the follower.
    MinimizeFollower,
    /// Restore the follower and show it.
    RestoreFollower,
    /// Move the follower's outer top-left corner here.
    MoveFollower(Point),
    /// The target is gone: drop "always on top" from the follower and notify
    /// the UI with `anchor-lost`.
    AnchorLost,
}

/// The follower window as observed at the start of a tick.
#[derive(Clone, Copy, Debug, PartialEq, Eq, Structural)]
pub struct FollowerView {
    pub minimized: bool,
    pub position: Point,
}

/// The anchor target as observed at the start of a tick.
#[derive(Clone, Copy, Debug, PartialEq, Eq, Structural)]
pub struct TargetView {
    /// The window that was queried.
    pub handle: WindowHandle,
    /// Whether the handle still names a live window.
    pub alive: bool,
    pub minimized: bool,
    /// Top-left corner of the target, `None` when the query failed.
    pub origin: Option<Point>,
}

/// Everything a tick reads from the windowing system.
#[derive(Clone, Copy, Debug, PartialEq, Eq, Structural)]
pub struct Observation {
    /// `None` when the follower window cannot be resolved.
    pub follower: Option<FollowerView>,
    /// Minimized state of the main window, `None` when it cannot be resolved.
    pub main_minimized: Option<bool>,
    /// The anchor target, when one was queried.
    pub target: Option<TargetView>,
}

/// The tracker's own memory between ticks.
#[derive(Clone, Copy, Debug, PartialEq, Eq, Structural)]
pub struct Tracker {
    /// Set while idle, so that the first active tick does not take the
    /// follower's position for a user drag.
    pub first_run: bool,
    /// The position the tracker last placed the follower at.
    pub last: Point,
}

/// Mirrors a leader's minimize state onto the follower.
///
/// Returns the new "minimized by the tracker" flag and the action. A
/// follower that the user minimized (flag clear) is never restored.
pub open spec fn mirror(leader_min: bool, follower_min: bool, loop_min: bool) -> (bool, Action) {
    if leader_min && !follower_min {
        (true, Action::MinimizeFollower)
    } else if !leader_min && follower_min && loop_min {
        (false, Action::RestoreFollower)
    } else {
        (loop_min, Action::Wait)
    }
}

pub open spec fn with_loop_min(m: Model, lm: bool) -> Model {
    Model { link: m.link, global_mode: m.global_mode, loop_minimized: lm }
}

pub open spec fn with_link(m: Model, link: Option<Link>) -> Model {
    Model { link, global_mode: m.global_mode, loop_minimized: m.loop_minimized }
}

/// One tick while no anchor is set.
pub open spec fn idle_step(m: Model, t: Tracker, o: Observation) -> (Model, Tracker, Action) {
    let t2 = Tracker { first_run: true, last: t.last };
    if m.global_mode && o.main_minimized is Some && o.follower is Some {
        let (lm, a) = mirror(
            o.main_minimized->Some_0,
            o.follower->Some_0.minimized,
            m.loop_minimized,
        );
        (with_loop_min(m, lm), t2, a)
    } else {
        (m, t2, Action::Wait)
    }
}

/// The positional part of a tick: both windows are restored and the target's
/// corner is at `origin`.
pub open spec fn follow_step(m: Model, l: Link, t: Tracker, f: FollowerView, origin: Point) -> (
    Model,
    Tracker,
    Action,
) {
    let dragged = !t.first_run && f.position != t.last;
    let off = if dragged {
        offset_between(f.position, origin)
    } else {
        l.offset
    };
    let m2 = with_link(m, Some(Link { target: l.target, offset: off }));
    match shifted(origin, off) {
        Some(d) => (
            m2,
            Tracker { first_run: false, last: d },
            if d == f.position {
                Action::Wait
            } else {
                Action::MoveFollower(d)
            },
        ),
        None => (m2, Tracker { first_run: false, last: t.last }, Action::Wait),
    }
}

/// One tick while anchored through `l`.
pub open spec fn anchored_step(m: Model, l: Link, t: Tracker, o: Observation) -> (
    Model,
    Tracker,
    Action,
) {
    match o.target {
        None => (m, t, Action::Wait),
        Some(tv) => if tv.handle != l.target {
            (m, t, Action::Wait)
        } else if !tv.alive {
            (with_link(m, None), t, Action::AnchorLost)
        } else {
            match o.follower {
                None => (m, t, Action::Wait),
                Some(f) => if tv.minimized || f.minimized {
                    let (lm, a) = mirror(tv.minimized, f.minimized, m.loop_minimized);
                    (with_loop_min(m, lm), t, a)
                } else {
                    match tv.origin {
                        None => (m, Tracker { first_run: false, last: t.last }, Action::Wait),
                        Some(origin) => follow_step(m, l, t, f, origin),
                    }
                },
            }
        },
    }
}

/// The tracker's transition: shared state, tracker memory and observation to
/// their successors and the action to carry out.
pub open spec fn step(m: Model, t: Tracker, o: Observation) -> (Model, Tracker, Action) {
    match m.link {
        None => idle_step(m, t, o),
        Some(l) => anchored_step(m, l, t, o),
    }
}

/// The tracker run over successive observations: the final shared state and
/// memory, and the action of each tick.
pub open spec fn run(m: Model, t: Tracker, os: Seq<Observation>) -> (Model, Tracker, Seq<Action>)
    decreases os.len(),
{
    if os.len() == 0 {
        (m, t, Seq::empty())
    } else {
        let (m1, t1, a) = step(m, t, os[0]);
        let (m2, t2, rest) = run(m1, t1, os.drop_first());
        (m2, t2, seq![a] + rest)
    }
}

impl Tracker {
    pub fn new() -> (r: Tracker)
        ensures
            r.first_run,
            r.last == (Point { x: 0, y: 0 }),
    {
        Tracker { first_run: true, last: Point { x: 0, y: 0 } }
    }
}

fn mirror_exec(leader_min: bool, follower_min: bool, loop_min: &mut bool) -> (r: Action)
    ensures
        (*final(loop_min), r) == mirror(leader_min, follower_min, *old(loop_min)),
{
    if leader_min && !follower_min {
        *loop_min = true;
        Action::MinimizeFollower
    } else if !leader_min && follower_min && *loop_min {
        *loop_min = false;
        Action::RestoreFollower
    } else {
        Action::Wait
    }
}

/// Runs one tick of the tracker on what was observed of the windows.
///
/// Reading the current anchor, deciding and updating happen in one call, so
/// a host that holds its lock over the call sees no interleaving.
pub fn tick(shared: &mut Shared, tracker: &mut Tracker, obs: &Observation) -> (r: Action)
    ensures
        (final(shared).model(), *final(tracker), r) == step(old(shared).model(), *old(tracker), *obs),
        final(shared).anchor matches Some(a) ==> (old(shared).anchor matches Some(b)
            && a.target_title@ == b.target_title@),
{
    let (target, offset) = match &shared.anchor {
        None => {
            tracker.first_run = true;
            if shared.global_mode {
                if let (Some(mm), Some(f)) = (obs.main_minimized, obs.follower) {
                    return mirror_exec(mm, f.minimized, &mut shared.loop_minimized);
                }
            }
            return Action::Wait;
        },
        Some(a) => (a.target, a.offset),
    };
    let tv = match obs.target {
        None => { return Action::Wait; },
        Some(tv) => tv,
    };
    if tv.handle != target {
        return Action::Wait;
    }
    if !tv.alive {
        shared.anchor = None;
        return Action::AnchorLost;
    }
    let f = match obs.follower {
        None => { return Action::Wait; },
        Some(f) => f,
    };
    if tv.minimized || f.minimized {
        return mirror_exec(tv.minimized, f.minimized, &mut shared.loop_minimized);
    }
    let origin = match tv.origin {
        None => {
            tracker.first_run = false;
            return Action::Wait;
        },
        Some(o) => o,
    };
    let off = if !tracker.first_run && f.position != tracker.last {
        let fresh = offset_of(f.position, origin);
        if let Some(a) = &shared.anchor {
            let title = a.target_title.clone();
            shared.anchor = Some(AnchorState { target, offset: fresh, target_title: title });
        }
        fresh
    } else {
        offset
    };
    tracker.first_run = false;
    match shift(origin, off) {
        Some(d) => {
            tracker.last = d;
            if d == f.position {
                Action::Wait
            } else {
                Action::MoveFollower(d)
            }
        },
        None => Action::Wait,
    }
}

} // verus!
