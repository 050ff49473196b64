use vstd::prelude::*;
use crate::geometry::{Point, Offset, WindowHandle, offset_between, offset_of};

verus! {

/// The error text of a pick that the user cancelled.
pub const CANCELLED: &'static str = "Cancelled";

/// The error text of a pick whose target's position could not be read.
pub const TARGET_UNREADABLE: &'static str = "Target window position cannot be read";

/// The error text of a pick of the follower's own window.
pub const OWN_WINDOW: &'static str = "Cannot anchor to own window";

/// The current attachment of the follower to a target window.
pub struct AnchorState {
    pub target: WindowHandle,
    pub offset: Offset,
    pub target_title: String,
}

/// The part of an attachment that the tracker acts on.
#[derive(Clone, Copy, Debug, PartialEq, Eq, Structural)]
pub struct Link {
    pub target: WindowHandle,
    pub offset: Offset,
}

/// The state that the command surface and the tracker share.
///
/// There is at most one attachment at a time: `anchor` is either absent or
/// the single current one.
pub struct Shared {
    pub anchor: Option<AnchorState>,
    /// When no anchor is set: mirror minimize/restore of the main window.
    pub global_mode: bool,
    /// Whether the tracker itself (not the user) last minimized the follower.
    pub loop_minimized: bool,
}

/// The abstract value of `Shared`, titles left out.
#[derive(Clone, Copy, Debug, PartialEq, Eq, Structural)]
pub struct Model {
    pub link: Option<Link>,
    pub global_mode: bool,
    pub loop_minimized: bool,
}

pub open spec fn link_of(a: Option<AnchorState>) -> Option<Link> {
    match a {
        Some(s) => Some(Link { target: s.target, offset: s.offset }),
        None => None,
    }
}

impl Shared {
    pub open spec fn model(&self) -> Model {
        Model {
            link: link_of(self.anchor),
            global_mode: self.global_mode,
            loop_minimized: self.loop_minimized,
        }
    }

    /// Fresh state: no anchor, global mode off, nothing minimized by the tracker.
    pub fn new() -> (r: Shared)
        ensures
            r.anchor is None,
            !r.global_mode,
            !r.loop_minimized,
    {
        Shared { anchor: None, global_mode: false, loop_minimized: false }
    }

    /// Ends the attachment on the user's request; the caller also drops
    /// "always on top" from the follower.
    pub fn stop_anchor(&mut self)
        ensures
            final(self).anchor is None,
            final(self).global_mode == old(self).global_mode,
            !final(self).loop_minimized,
    {
        self.loop_minimized = false;
        clear_anchor(self);
    }

    pub fn set_global_mode(&mut self)
        ensures
            final(self).global_mode,
            !final(self).loop_minimized,
            final(self).anchor == old(self).anchor,
    {
        self.loop_minimized = false;
        self.global_mode = true;
    }

    pub fn clear_global_mode(&mut self)
        ensures
            !final(self).global_mode,
            !final(self).loop_minimized,
            final(self).anchor == old(self).anchor,
    {
        self.loop_minimized = false;
        self.global_mode = false;
    }

    /// The title of the current target, if any.
    pub fn target_title(&self) -> (r: Option<String>)
        ensures
            r is Some <==> self.anchor is Some,
            r matches Some(t) ==> t@ == self.anchor->Some_0.target_title@,
    {
        match &self.anchor {
            Some(a) => Some(a.target_title.clone()),
            None => None,
        }
    }
}

/// Attaches the follower to `target`, replacing any previous attachment.
///
/// `follower` is the follower's current position and `target_origin` the
/// target's top-left corner, or `None` when that query failed, in which case
/// nothing changes.
pub fn set_anchor(
    shared: &mut Shared,
    target: WindowHandle,
    target_title: String,
    follower: Point,
    target_origin: Option<Point>,
)
    ensures
        target_origin matches Some(o) ==> (final(shared).anchor matches Some(a) && a.target == target
            && a.offset == offset_between(follower, o) && a.target_title@ == target_title@),
        target_origin is None ==> final(shared).anchor == old(shared).anchor,
        final(shared).global_mode == old(shared).global_mode,
        final(shared).loop_minimized == old(shared).loop_minimized,
{
    if let Some(o) = target_origin {
        shared.anchor = Some(AnchorState { target, offset: offset_of(follower, o), target_title });
    }
}

/// Removes the attachment, if any.
pub fn clear_anchor(shared: &mut Shared)
    ensures
        final(shared).anchor is None,
        final(shared).global_mode == old(shared).global_mode,
        final(shared).loop_minimized == old(shared).loop_minimized,
{
    shared.anchor = None;
}

/// Concludes a pick made for the follower window `own`.
///
/// On a selection of another window whose position is known, attaches the
/// follower to it and returns its title. A cancelled pick returns
/// `CANCELLED`, a pick of `own` returns `OWN_WINDOW`, and a target whose
/// position could not be read returns `TARGET_UNREADABLE`; in those cases
/// the state is left as it was.
pub fn start_window_picker(
    shared: &mut Shared,
    own: WindowHandle,
    picked: Option<(String, WindowHandle)>,
    follower: Point,
    target_origin: Option<Point>,
) -> (r: Result<String, String>)
    ensures
        picked is None ==> (r matches Err(e) && e@ == CANCELLED@),
        picked is Some && picked->Some_0.1 == own ==> (r matches Err(e) && e@ == OWN_WINDOW@),
        picked is Some && picked->Some_0.1 != own && target_origin is None ==> (r matches Err(e)
            && e@ == TARGET_UNREADABLE@),
        r is Err ==> final(shared).anchor == old(shared).anchor,
        picked is Some && picked->Some_0.1 != own && target_origin is Some ==> (r matches Ok(t)
            && t@ == picked->Some_0.0@),
        picked is Some && picked->Some_0.1 != own && target_origin is Some ==> (
        final(shared).anchor matches Some(a) && a.target == picked->Some_0.1 && a.offset
            == offset_between(follower, target_origin->Some_0) && a.target_title@
            == picked->Some_0.0@),
        final(shared).global_mode == old(shared).global_mode,
        final(shared).loop_minimized == old(shared).loop_minimized,
{
    match picked {
        Some((title, handle)) => {
            if handle == own {
                Err(OWN_WINDOW.to_owned())
            } else if target_origin.is_none() {
                Err(TARGET_UNREADABLE.to_owned())
            } else {
                let shown = title.clone();
                set_anchor(shared, handle, title, follower, target_origin);
                Ok(shown)
            }
        },
        None => Err(CANCELLED.to_owned()),
    }
}

} // verus!
