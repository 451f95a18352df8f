//! The window as a drop target: the cursor shown while something is dragged over it.
use vstd::prelude::*;

verus! {

/// The cursor shown while something is dragged over the window.
#[derive(Debug, Clone, Copy, PartialEq, Eq, Structural)]
pub enum DropEffect {
    /// The drop would be refused.
    Refuse,
    /// The drop would be copied in.
    Copy,
}

/// What the window remembers during a drag.
#[derive(Debug, Clone, Copy, PartialEq, Eq, Structural)]
pub struct DropTargetState {
    /// Whether what entered can be imported.
    pub enter_is_valid: bool,
    /// The cursor to show while the drag stays over the window.
    pub cursor_effect: DropEffect,
}

/// The cursor for content that can or cannot be imported.
pub open spec fn effect_for(valid: bool) -> DropEffect {
    if valid {
        DropEffect::Copy
    } else {
        DropEffect::Refuse
    }
}

/// The state between drags.
pub open spec fn idle_state() -> DropTargetState {
    DropTargetState { enter_is_valid: false, cursor_effect: DropEffect::Refuse }
}

impl DropTargetState {
    /// The state before any drag.
    pub fn new() -> (r: DropTargetState)
        ensures
            r == idle_state(),
    {
        DropTargetState { enter_is_valid: false, cursor_effect: DropEffect::Refuse }
    }

    /// A drag enters the window; `supported` tells whether it carries a path or a
    /// link. Returns the cursor to show.
    pub fn drag_enter(&mut self, supported: bool) -> (effect: DropEffect)
        ensures
            effect == effect_for(supported),
            *final(self) == (DropTargetState { enter_is_valid: supported, cursor_effect: effect_for(supported) }),
    {
        let effect = if supported {
            DropEffect::Copy
        } else {
            DropEffect::Refuse
        };
        self.enter_is_valid = supported;
        self.cursor_effect = effect;
        effect
    }

    /// The drag moves over the window: the cursor chosen when it entered.
    pub fn drag_over(&self) -> (effect: DropEffect)
        ensures
            effect == self.cursor_effect,
    {
        self.cursor_effect
    }

    /// The drag leaves the window.
    pub fn drag_leave(&mut self)
        ensures
            *final(self) == idle_state(),
    {
        self.enter_is_valid = false;
        self.cursor_effect = DropEffect::Refuse;
    }

    /// The drag is dropped; `valid` tells whether the drop carried a path or a
    /// link (and so was handed on). Returns the effect to report.
    pub fn drop_data(&mut self, valid: bool) -> (effect: DropEffect)
        ensures
            effect == effect_for(valid),
            *final(self) == idle_state(),
    {
        self.enter_is_valid = false;
        self.cursor_effect = DropEffect::Refuse;
        if valid {
            DropEffect::Copy
        } else {
            DropEffect::Refuse
        }
    }
}

/// A drag shows the copy cursor exactly when what entered can be imported, and
/// once it leaves or is dropped the next one starts from the refusing cursor.
pub proof fn lemma_drop_cursor(supported: bool)
    ensures
        (DropTargetState { enter_is_valid: supported, cursor_effect: effect_for(supported) }).cursor_effect
            == DropEffect::Copy <==> supported,
        idle_state().cursor_effect == DropEffect::Refuse,
{
}

} // verus!
