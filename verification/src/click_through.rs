use vstd::prelude::*;

verus! {

/// Whether the overlay should ignore cursor events (click-through on) for one
/// cursor sample. `cursor_inside` is `None` when the cursor position could not
/// be read, and otherwise whether the cursor is inside some hit region.
pub open spec fn should_ignore_spec(cursor_inside: Option<bool>) -> bool {
    match cursor_inside {
        Some(inside) => !inside,
        None => true,
    }
}

/// One poll tick from the last applied state `last`: the state afterwards and
/// the click-through state to apply to the window, if it must be set.
pub open spec fn step_spec(last: Option<bool>, cursor_inside: Option<bool>) -> (
    Option<bool>,
    Option<bool>,
) {
    let ignore = should_ignore_spec(cursor_inside);
    (Some(ignore), if last == Some(ignore) { None } else { Some(ignore) })
}

/// The click-through toggle of the cursor-polling loop. It remembers the last
/// click-through state applied to the window, so that the window is only
/// touched when that state changes.
pub struct ClickThrough {
    last_ignore: Option<bool>,
}

impl View for ClickThrough {
    type V = Option<bool>;

    closed spec fn view(&self) -> Option<bool> {
        self.last_ignore
    }
}

impl ClickThrough {
    /// A toggle that has not applied any state yet.
    pub fn new() -> (r: Self)
        ensures
            r@ == None::<bool>,
    {
        ClickThrough { last_ignore: None }
    }

    /// The click-through state last applied, if any.
    pub fn last_applied(&self) -> (r: Option<bool>)
        ensures
            r == self@,
    {
        self.last_ignore
    }

    /// Whether click-through should be on for one cursor sample.
    pub fn should_ignore(cursor_inside: Option<bool>) -> (r: bool)
        ensures
            r == should_ignore_spec(cursor_inside),
    {
        match cursor_inside {
            Some(inside) => !inside,
            None => true,
        }
    }

    /// One poll tick. Returns `Some(ignore)` when the window's click-through
    /// state must be set to `ignore`, and `None` when it already has that state.
    pub fn step(&mut self, cursor_inside: Option<bool>) -> (r: Option<bool>)
        ensures
            (final(self)@, r) == step_spec(old(self)@, cursor_inside),
    {
        let should_ignore = Self::should_ignore(cursor_inside);
        let changed = match self.last_ignore {
            Some(last) => last != should_ignore,
            None => true,
        };
        self.last_ignore = Some(should_ignore);
        if changed {
            Some(should_ignore)
        } else {
            None
        }
    }
}

/// The window is touched only when its click-through state changes: a tick
/// asks for a write exactly when the state it computes differs from the last
/// applied one, and then it asks for that state; a second tick on the same
/// sample asks for nothing.
pub proof fn lemma_write_only_on_change(last: Option<bool>, cursor_inside: Option<bool>)
    ensures
        step_spec(last, cursor_inside).1 is Some <==> last != step_spec(last, cursor_inside).0,
        step_spec(last, cursor_inside).1 is Some ==> step_spec(last, cursor_inside).1
            == step_spec(last, cursor_inside).0,
        step_spec(step_spec(last, cursor_inside).0, cursor_inside).1 is None,
{
}

/// Click-through is on whenever the cursor is outside every region or its
/// position cannot be read, and off only while it is inside one.
pub proof fn lemma_capture_only_inside(cursor_inside: Option<bool>)
    ensures
        !should_ignore_spec(cursor_inside) <==> cursor_inside == Some(true),
{
}

/// Every tick leaves the window in the state its sample calls for, whatever
/// was applied before: capturing (click-through off) exactly while the cursor
/// is inside a region, click-through on otherwise. So leaving every region
/// after capturing always writes click-through back on, and entering a region
/// after click-through always writes capture.
pub proof fn lemma_tick_applies_sample(last: Option<bool>, cursor_inside: Option<bool>)
    ensures
        step_spec(last, cursor_inside).0 == Some(cursor_inside != Some(true)),
        last == Some(false) && cursor_inside != Some(true) ==> step_spec(last, cursor_inside).1
            == Some(true),
        last == Some(true) && cursor_inside == Some(true) ==> step_spec(last, cursor_inside).1
            == Some(false),
        last is None ==> step_spec(last, cursor_inside).1 == Some(cursor_inside != Some(true)),
{
}

} // verus!
