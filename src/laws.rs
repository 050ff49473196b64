use vstd::prelude::*;
use crate::geometry::{Point, WindowHandle, fits_i32, offset_between, shifted};
use crate::anchor::{Link, Model};
use crate::tracker::{Action, Observation, Tracker, step, run};

verus! {

/// Where the follower stands after `a` was carried out from `pos`.
pub open spec fn follower_after(pos: Point, a: Action) -> Point {
    match a {
        Action::MoveFollower(d) => d,
        _ => pos,
    }
}

/// The target `h` is alive and restored with a known corner, and the
/// follower is present and restored.
pub open spec fn unobstructed(o: Observation, h: WindowHandle) -> bool {
    &&& o.target matches Some(tv)
    &&& tv.handle == h
    &&& tv.alive
    &&& !tv.minimized
    &&& tv.origin is Some
    &&& o.follower matches Some(f)
    &&& !f.minimized
}

proof fn lemma_run_len(m: Model, t: Tracker, os: Seq<Observation>)
    ensures
        run(m, t, os).2.len() == os.len(),
    decreases os.len(),
{
    if os.len() > 0 {
        let (m1, t1, a) = step(m, t, os[0]);
        lemma_run_len(m1, t1, os.drop_first());
    }
}

/// Without an anchor, no tick moves the follower or reports a lost target,
/// and the anchor stays absent: an offset that was cleared is never applied
/// again.
pub proof fn lemma_cleared_anchor_is_inert(m: Model, t: Tracker, os: Seq<Observation>)
    requires
        m.link is None,
    ensures
        run(m, t, os).0.link is None,
        forall|i: int|
            0 <= i < os.len() ==> !(run(m, t, os).2[i] is MoveFollower) && !(run(
                m,
                t,
                os,
            ).2[i] is AnchorLost),
    decreases os.len(),
{
    if os.len() > 0 {
        let (m1, t1, a) = step(m, t, os[0]);
        lemma_cleared_anchor_is_inert(m1, t1, os.drop_first());
        let rest = run(m1, t1, os.drop_first()).2;
        lemma_run_len(m1, t1, os.drop_first());
        assert(run(m, t, os).2 == seq![a] + rest);
        assert forall|i: int| 0 <= i < os.len() implies !(run(m, t, os).2[i] is MoveFollower) && !(
        run(m, t, os).2[i] is AnchorLost) by {
            if i > 0 {
                assert(run(m, t, os).2[i] == rest[i - 1]);
            }
        }
    }
}

/// When the target moves by (vx, vy) between two ticks and the user leaves
/// the follower where the first tick put it, the second tick moves the
/// follower by exactly (vx, vy).
pub proof fn lemma_follower_tracks_target(
    m: Model,
    t: Tracker,
    o1: Observation,
    o2: Observation,
    vx: int,
    vy: int,
)
    requires
        m.link is Some,
        unobstructed(o1, m.link->Some_0.target),
        unobstructed(o2, m.link->Some_0.target),
        shifted(o1.target->Some_0.origin->Some_0, m.link->Some_0.offset) is Some,
        o2.target->Some_0.origin->Some_0.x == o1.target->Some_0.origin->Some_0.x + vx,
        o2.target->Some_0.origin->Some_0.y == o1.target->Some_0.origin->Some_0.y + vy,
        o2.follower->Some_0.position == follower_after(
            o1.follower->Some_0.position,
            step(m, t, o1).2,
        ),
        fits_i32(o2.follower->Some_0.position.x + vx),
        fits_i32(o2.follower->Some_0.position.y + vy),
    ensures
        ({
            let q = o2.follower->Some_0.position;
            let s1 = step(m, t, o1);
            let a2 = step(s1.0, s1.1, o2).2;
            follower_after(q, a2).x == q.x + vx && follower_after(q, a2).y == q.y + vy
        }),
{
}

/// After the user drags the follower while anchored, the tick that notices
/// it leaves the follower where the user put it and takes the new offset
/// from there, and the next tick, with the target unmoved, does not snap it
/// back.
pub proof fn lemma_drag_sets_offset(m: Model, t: Tracker, o1: Observation, o2: Observation)
    requires
        m.link is Some,
        !t.first_run,
        unobstructed(o1, m.link->Some_0.target),
        unobstructed(o2, m.link->Some_0.target),
        o1.follower->Some_0.position != t.last,
        o2.target->Some_0.origin == o1.target->Some_0.origin,
        o2.follower->Some_0.position == o1.follower->Some_0.position,
    ensures
        ({
            let p = o1.follower->Some_0.position;
            let s1 = step(m, t, o1);
            let s2 = step(s1.0, s1.1, o2);
            &&& s1.0.link == Some(
                Link {
                    target: m.link->Some_0.target,
                    offset: offset_between(p, o1.target->Some_0.origin->Some_0),
                },
            )
            &&& follower_after(p, s1.2) == p
            &&& follower_after(p, s2.2) == p
        }),
{
}

/// The follower is seen minimized, or not seen at all.
pub open spec fn follower_not_restored(o: Observation) -> bool {
    o.follower matches Some(f) ==> f.minimized
}

/// A follower that the user minimized is never restored by the tracker: as
/// long as it is seen minimized and the tracker did not minimize it, no tick
/// restores it, whatever the target or the main window does.
pub proof fn lemma_user_minimize_respected(m: Model, t: Tracker, os: Seq<Observation>)
    requires
        !m.loop_minimized,
        forall|i: int| 0 <= i < os.len() ==> #[trigger] follower_not_restored(os[i]),
    ensures
        !run(m, t, os).0.loop_minimized,
        forall|i: int| 0 <= i < os.len() ==> !(run(m, t, os).2[i] is RestoreFollower),
    decreases os.len(),
{
    if os.len() > 0 {
        let (m1, t1, a) = step(m, t, os[0]);
        assert(follower_not_restored(os[0]));
        assert(!m1.loop_minimized && !(a is RestoreFollower));
        let tail = os.drop_first();
        assert forall|i: int| 0 <= i < tail.len() implies #[trigger] follower_not_restored(tail[i]) by {
            assert(tail[i] == os[i + 1]);
        }
        lemma_user_minimize_respected(m1, t1, tail);
        let rest = run(m1, t1, tail).2;
        lemma_run_len(m1, t1, tail);
        assert(run(m, t, os).2 == seq![a] + rest);
        assert forall|i: int| 0 <= i < os.len() implies !(run(m, t, os).2[i] is RestoreFollower) by {
            if i > 0 {
                assert(run(m, t, os).2[i] == rest[i - 1]);
            }
        }
    }
}

/// When the tracker minimized the follower to match a minimized target, the
/// target's restore restores and shows the follower and clears the flag.
pub proof fn lemma_loop_minimize_undone(m: Model, t: Tracker, o1: Observation, o2: Observation)
    requires
        m.link is Some,
        o1.target matches Some(tv) && tv.handle == m.link->Some_0.target && tv.alive
            && tv.minimized,
        o1.follower matches Some(f) && !f.minimized,
        o2.target matches Some(tv) && tv.handle == m.link->Some_0.target && tv.alive
            && !tv.minimized,
        o2.follower matches Some(f) && f.minimized,
    ensures
        ({
            let s1 = step(m, t, o1);
            let s2 = step(s1.0, s1.1, o2);
            &&& s1.2 == Action::MinimizeFollower
            &&& s1.0.loop_minimized
            &&& s2.2 == Action::RestoreFollower
            &&& !s2.0.loop_minimized
            &&& s2.0.link == m.link
        }),
{
}

/// When the target is gone, the tick clears the anchor and reports the loss,
/// and no later tick reports it again.
pub proof fn lemma_lost_target_reported_once(
    m: Model,
    t: Tracker,
    o: Observation,
    later: Seq<Observation>,
)
    requires
        m.link is Some,
        o.target matches Some(tv) && tv.handle == m.link->Some_0.target && !tv.alive,
    ensures
        step(m, t, o).2 == Action::AnchorLost,
        step(m, t, o).0.link is None,
        forall|i: int|
            0 <= i < later.len() ==> !(run(step(m, t, o).0, step(m, t, o).1, later).2[i] is AnchorLost),
{
    lemma_cleared_anchor_is_inert(step(m, t, o).0, step(m, t, o).1, later);
}

} // verus!
