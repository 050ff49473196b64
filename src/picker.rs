use vstd::prelude::*;
use vstd::string::StrSliceExecFns;
use crate::geometry::WindowHandle;

verus! {

/// The window under the cursor at a click, resolved to its top-level ancestor.
pub struct Candidate {
    pub handle: WindowHandle,
    pub visible: bool,
    /// Carries the tool-window style (a floating palette).
    pub tool_window: bool,
    pub title: String,
}

/// What one poll of the input devices saw.
pub struct PickerInput {
    /// The primary mouse button is down.
    pub button_down: bool,
    /// The cancel key is down.
    pub cancel_down: bool,
    /// The window under the cursor, when the button is down and it resolved.
    pub candidate: Option<Candidate>,
}

/// Where the pick stands.
#[derive(Clone, Copy, Debug, PartialEq, Eq, Structural)]
pub enum Phase {
    /// Waiting for the click that started the pick to be released.
    Debounce,
    /// Waiting for a click on a target, or for the cancel key.
    Selecting,
    /// A target was chosen; waiting for the button to be released.
    Releasing(WindowHandle),
    /// The pick has been reported.
    Done,
}

/// The outcome of one poll.
pub enum PickerStep {
    /// Keep polling.
    Continue,
    /// The user chose this window.
    Picked(String, WindowHandle),
    /// The user pressed the cancel key.
    Cancelled,
}

/// An interactive pick of a target window, driven one poll at a time.
pub struct Picker {
    /// The picker's own window, which is never a target.
    pub own: WindowHandle,
    pub phase: Phase,
    /// The chosen window's title, once there is one.
    pub chosen_title: String,
    /// The click candidate that was chosen, once there is one.
    pub chosen: Ghost<Option<Candidate>>,
}

/// `p` occurs in `s` at index `i`.
pub open spec fn occurs_at(s: Seq<char>, p: Seq<char>, i: int) -> bool {
    0 <= i && i + p.len() <= s.len() && s.subrange(i, i + p.len()) == p
}

pub open spec fn occurs_in(s: Seq<char>, p: Seq<char>) -> bool {
    exists|i: int| occurs_at(s, p, i)
}

/// Shell and input-method windows that are visible top-levels but never
/// meaningful targets.
pub open spec fn denylisted(title: Seq<char>) -> bool {
    occurs_in(title, "Program Manager"@) || occurs_in(title, "Windows Input Experience"@)
        || occurs_in(title, "MSCTFIME UI"@) || occurs_in(title, "Default IME"@)
}

/// The eligibility test of a target, its own-window check aside.
pub open spec fn eligible(c: Candidate) -> bool {
    c.visible && !c.tool_window && c.title@.len() > 0 && !denylisted(c.title@)
}

pub open spec fn selectable(c: Candidate, own: WindowHandle) -> bool {
    c.handle != own && eligible(c)
}

fn chars_of(s: &str) -> (r: Vec<char>)
    ensures
        r@ == s@,
{
    let n = s.unicode_len();
    let mut r: Vec<char> = Vec::new();
    let mut i: usize = 0;
    while i < n
        invariant
            n == s@.len(),
            i <= n,
            r@ == s@.subrange(0, i as int),
        decreases n - i,
    {
        r.push(s.get_char(i));
        i = i + 1;
    }
    assert(r@ =~= s@);
    r
}

fn occurs_at_exec(s: &Vec<char>, p: &Vec<char>, i: usize) -> (r: bool)
    requires
        i + p@.len() <= s@.len(),
    ensures
        r == occurs_at(s@, p@, i as int),
{
    let slen = s.len();
    let mut j: usize = 0;
    while j < p.len()
        invariant
            slen == s@.len(),
            i + p@.len() <= s@.len(),
            j <= p@.len(),
            forall|k: int| 0 <= k < j ==> s@[i + k] == p@[k],
        decreases p@.len() - j,
    {
        if s[i + j] != p[j] {
            assert(s@.subrange(i as int, i + p@.len())[j as int] != p@[j as int]);
            return false;
        }
        j = j + 1;
    }
    assert(s@.subrange(i as int, i + p@.len()) =~= p@);
    true
}

fn occurs_in_exec(s: &Vec<char>, p: &str) -> (r: bool)
    ensures
        r == occurs_in(s@, p@),
{
    let pat = chars_of(p);
    let slen = s.len();
    if pat.len() > slen {
        return false;
    }
    if pat.len() == 0 {
        assert(s@.subrange(0, 0) =~= pat@);
        assert(occurs_at(s@, p@, 0));
        return true;
    }
    let last = slen - pat.len();
    let mut i: usize = 0;
    while i <= last
        invariant
            slen == s@.len(),
            last == s@.len() - pat@.len(),
            pat@ == p@,
            pat@.len() > 0,
            i <= last + 1,
            forall|k: int| 0 <= k < i ==> !occurs_at(s@, p@, k),
        decreases last + 1 - i,
    {
        if occurs_at_exec(s, &pat, i) {
            assert(occurs_at(s@, p@, i as int));
            return true;
        }
        i = i + 1;
    }
    assert forall|k: int| !occurs_at(s@, p@, k) by {
        if 0 <= k < i {
        }
    }
    false
}

/// Whether a clicked window may become the anchor target: it is visible,
/// not a tool window, has a title, and is not a denylisted shell or
/// input-method window.
pub fn is_visible_toplevel(c: &Candidate) -> (r: bool)
    ensures
        r == eligible(*c),
{
    if !c.visible || c.tool_window {
        return false;
    }
    let title = chars_of(c.title.as_str());
    if title.len() == 0 {
        return false;
    }
    !(occurs_in_exec(&title, "Program Manager") || occurs_in_exec(&title, "Windows Input Experience")
        || occurs_in_exec(&title, "MSCTFIME UI") || occurs_in_exec(&title, "Default IME"))
}

/// This poll is a click on a window that may become the target.
pub open spec fn clicks_target(input: PickerInput, own: WindowHandle) -> bool {
    input.button_down && (input.candidate matches Some(c) && selectable(c, own))
}

impl Picker {
    /// A window that is being released was chosen by a click on a selectable
    /// window other than the picker's own.
    pub open spec fn wf(&self) -> bool {
        self.phase matches Phase::Releasing(h) ==> (self.chosen@ matches Some(c) && c.handle == h
            && c.title@ == self.chosen_title@ && selectable(c, self.own))
    }

    /// A pick started from a click that may still be held down.
    pub fn new(own: WindowHandle) -> (r: Picker)
        ensures
            r.own == own,
            r.phase == Phase::Debounce,
            r.wf(),
    {
        Picker { own, phase: Phase::Debounce, chosen_title: String::new(), chosen: Ghost(None) }
    }

    /// Advances the pick by one poll.
    ///
    /// A click resolves only on a selectable window: any other click is
    /// ignored and polling goes on. The cancel key cancels while selecting;
    /// a chosen window is reported once the button is released.
    ///
    /// Since `new` establishes `wf` and every step keeps it, no sequence of
    /// polls ever reports the picker's own window or an ineligible one: a
    /// report always names a window that was clicked while selectable.
    pub fn step(&mut self, input: PickerInput) -> (r: PickerStep)
        requires
            old(self).wf(),
        ensures
            final(self).wf(),
            r matches PickerStep::Picked(t, w) ==> (old(self).chosen@ matches Some(c) && selectable(
                c,
                old(self).own,
            ) && c.handle == w && c.title@ == t@),
            final(self).own == old(self).own,
            old(self).phase == Phase::Debounce ==> r is Continue && final(self).phase == (
            if input.button_down {
                Phase::Debounce
            } else {
                Phase::Selecting
            }),
            old(self).phase == Phase::Selecting && clicks_target(input, old(self).own) ==> (
            r is Continue && final(self).phase == Phase::Releasing(input.candidate->Some_0.handle)
                && final(self).chosen_title@ == input.candidate->Some_0.title@),
            old(self).phase == Phase::Selecting && !clicks_target(input, old(self).own) ==> (
            if input.cancel_down {
                r is Cancelled && final(self).phase == Phase::Done
            } else {
                r is Continue && final(self).phase == Phase::Selecting
            }),
            old(self).phase matches Phase::Releasing(h) ==> (if input.button_down {
                r is Continue && final(self).phase == old(self).phase
                    && final(self).chosen_title@ == old(self).chosen_title@
            } else {
                r matches PickerStep::Picked(t, w) && w == h && t@ == old(self).chosen_title@
                    && final(self).phase == Phase::Done
            }),
            old(self).phase == Phase::Done ==> r is Continue && final(self).phase == Phase::Done,
    {
        match self.phase {
            Phase::Debounce => {
                if !input.button_down {
                    self.phase = Phase::Selecting;
                }
                PickerStep::Continue
            },
            Phase::Selecting => {
                if input.button_down {
                    if let Some(c) = input.candidate {
                        if c.handle != self.own && is_visible_toplevel(&c) {
                            self.phase = Phase::Releasing(c.handle);
                            self.chosen = Ghost(Some(c));
                            self.chosen_title = c.title;
                            return PickerStep::Continue;
                        }
                    }
                }
                if input.cancel_down {
                    self.phase = Phase::Done;
                    PickerStep::Cancelled
                } else {
                    PickerStep::Continue
                }
            },
            Phase::Releasing(h) => {
                if input.button_down {
                    PickerStep::Continue
                } else {
                    self.phase = Phase::Done;
                    PickerStep::Picked(self.chosen_title.clone(), h)
                }
            },
            Phase::Done => PickerStep::Continue,
        }
    }
}

} // verus!
