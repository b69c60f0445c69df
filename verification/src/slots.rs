//! Process-wide transient result slots.
//!
//! Transient overlay windows (region selector, color picker, screenshot
//! preview) have no direct channel back to the main dock; each writes its
//! result into a single-slot mailbox that the dock later reads.  The region
//! and color slots drain on read (take-on-read); the preview slot is read
//! repeatedly without draining until it is cleared.  The mutual exclusion
//! around each slot lives with the caller; the slots themselves are plain
//! state with exact transition contracts.

use vstd::prelude::*;

verus! {

/// The state transition of a draining read: the stored value comes out and
/// the slot is left empty.
pub open spec fn spec_take<T>(s: Option<T>) -> (Option<T>, Option<T>) {
    (s, None)
}

/// The state transition of a non-draining read: the stored value comes out
/// and the slot keeps it.
pub open spec fn spec_peek<T>(s: Option<T>) -> (Option<T>, Option<T>) {
    (s, s)
}

/// Take-on-read semantics: after a value is stored, the first draining read
/// yields it and every later one yields nothing (until a new store).
pub proof fn lemma_take_drains<T>(v: Option<T>)
    ensures
        spec_take(v).0 == v,
        spec_take::<T>(v).1 is None,
        spec_take(spec_take::<T>(v).1).0 is None,
{
}

/// Peek semantics: however many non-draining reads follow a store, each
/// yields the stored value and the slot still holds it.
pub proof fn lemma_peek_is_nondraining<T>(v: Option<T>)
    ensures
        spec_peek(v).0 == v,
        spec_peek(v).1 == v,
        spec_peek(spec_peek(v).1).0 == v,
{
}

/// The slot holding the region the user selected, `[x, y, w, h]` in physical
/// pixels; drained when the main dock reads it.
pub struct RegionSlot {
    value: Option<[i32; 4]>,
}

impl RegionSlot {
    /// What the slot currently holds.
    pub closed spec fn stored(&self) -> Option<[i32; 4]> {
        self.value
    }

    /// A fresh, empty slot.
    pub fn empty() -> (s: Self)
        ensures
            s.stored() is None,
    {
        RegionSlot { value: None }
    }

    /// Store a result (or a cancellation), unconditionally overwriting;
    /// the previous contents come back, discarded by most callers.
    pub fn put(&mut self, region: Option<[i32; 4]>) -> (prev: Option<[i32; 4]>)
        ensures
            final (self).stored() == region,
            prev == old(self).stored(),
    {
        let prev = self.value;
        self.value = region;
        prev
    }

    /// Drain the slot: the stored value comes out and the slot is emptied.
    pub fn take(&mut self) -> (r: Option<[i32; 4]>)
        ensures
            (r, final (self).stored()) == spec_take(old(self).stored()),
    {
        let r = self.value;
        self.value = None;
        r
    }
}

/// The slot holding the picked color.  The outer level records whether a
/// pick finished at all; the inner level is `None` for a cancelled pick and
/// the `#rrggbb` string for a successful one.  Drained when read.
pub struct ColorSlot {
    value: Option<Option<String>>,
}

impl ColorSlot {
    /// What the slot currently holds.
    pub closed spec fn stored(&self) -> Option<Option<String>> {
        self.value
    }

    /// A fresh, empty slot.
    pub fn empty() -> (s: Self)
        ensures
            s.stored() is None,
    {
        ColorSlot { value: None }
    }

    /// Forget any stale result before a new picking session, so a cancelled
    /// previous session cannot be mistaken for a fresh result.
    pub fn clear(&mut self)
        ensures
            final (self).stored() is None,
    {
        self.value = None;
    }

    /// Record the outcome of a pick: `Some(color)` for success, `None` for a
    /// cancelled pick.
    pub fn put(&mut self, color: Option<String>) -> (prev: Option<Option<String>>)
        ensures
            final (self).stored() == Some(color),
            prev == old(self).stored(),
    {
        let mut prev: Option<Option<String>> = None;
        core::mem::swap(&mut self.value, &mut prev);
        self.value = Some(color);
        prev
    }

    /// Drain the slot, flattening: an unfinished pick and a cancelled pick
    /// both read as `None`.
    pub fn take(&mut self) -> (r: Option<String>)
        ensures
            final (self).stored() is None,
            r == match old(self).stored() {
                Some(c) => c,
                None => None::<String>,
            },
    {
        let mut taken: Option<Option<String>> = None;
        core::mem::swap(&mut self.value, &mut taken);
        match taken {
            Some(color) => color,
            None => None,
        }
    }
}

/// The slot holding the path the screenshot preview window shows; read
/// repeatedly without draining while the preview is open.
pub struct PreviewSlot {
    value: Option<String>,
}

impl PreviewSlot {
    /// What the slot currently holds.
    pub closed spec fn stored(&self) -> Option<String> {
        self.value
    }

    /// A fresh, empty slot.
    pub fn empty() -> (s: Self)
        ensures
            s.stored() is None,
    {
        PreviewSlot { value: None }
    }

    /// Store the path the preview window should show, unconditionally
    /// overwriting.
    pub fn put(&mut self, path: String) -> (prev: Option<String>)
        ensures
            final (self).stored() == Some(path),
            prev == old(self).stored(),
    {
        let mut prev: Option<String> = None;
        core::mem::swap(&mut self.value, &mut prev);
        self.value = Some(path);
        prev
    }

    /// Read the stored path without draining it.
    pub fn peek(&self) -> (r: Option<String>)
        ensures
            (r, self.stored()) == spec_peek(self.stored()),
    {
        match &self.value {
            Some(p) => Some(p.clone()),
            None => None,
        }
    }

    /// Empty the slot.
    pub fn clear(&mut self)
        ensures
            final (self).stored() is None,
    {
        self.value = None;
    }
}

} // verus!
