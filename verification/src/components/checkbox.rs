//! The checklist checkbox: its state attributes, and the short lock that
//! keeps one tap from toggling twice (Android's WebView reports a tap both
//! as a pointer-up and as a click).
use vstd::prelude::*;

verus! {

/// The state a checkbox shows.
#[derive(Debug, Clone, Copy, PartialEq, Eq, Structural)]
pub enum CheckboxState {
    Checked,
    Unchecked,
    Indeterminate,
}

impl CheckboxState {
    /// The checkbox's `aria-checked` value.
    pub fn aria_checked(self) -> (r: &'static str)
        ensures
            r@ == match self {
                CheckboxState::Checked => "true"@,
                CheckboxState::Indeterminate => "mixed"@,
                CheckboxState::Unchecked => "false"@,
            },
    {
        match self {
            CheckboxState::Checked => "true",
            CheckboxState::Indeterminate => "mixed",
            CheckboxState::Unchecked => "false",
        }
    }

    /// The checkbox's `data-state` value.
    pub fn data_state(self) -> (r: &'static str)
        ensures
            r@ == match self {
                CheckboxState::Checked => "checked"@,
                CheckboxState::Indeterminate => "indeterminate"@,
                CheckboxState::Unchecked => "unchecked"@,
            },
    {
        match self {
            CheckboxState::Checked => "checked",
            CheckboxState::Indeterminate => "indeterminate",
            CheckboxState::Unchecked => "unchecked",
        }
    }
}

/// An activation of a box that shows `checked`: ignored when the box is
/// disabled or the lock is closed; otherwise the lock closes and the new
/// checked value is reported.
pub open spec fn spec_activate(lock: ActivationLock, disabled: bool, checked: bool) -> (
    ActivationLock,
    Option<bool>,
) {
    if disabled || lock.locked {
        (lock, None)
    } else {
        (ActivationLock { locked: true }, Some(!checked))
    }
}

/// Whether a checkbox is taking activations: after one is accepted, the
/// others are ignored until the caller's short timer releases the lock.
#[derive(Debug, Clone, Copy, PartialEq, Eq, Structural)]
pub struct ActivationLock {
    pub locked: bool,
}

impl ActivationLock {
    /// A lock taking activations.
    pub fn new() -> (r: ActivationLock)
        ensures
            !r.locked,
    {
        ActivationLock { locked: false }
    }

    /// An activation of a box that shows `checked`: ignored (`None`) when the
    /// box is disabled or locked; otherwise the lock closes and the new
    /// checked value is reported.
    pub fn activate(&mut self, disabled: bool, checked: bool) -> (r: Option<bool>)
        ensures
            (*final(self), r) == spec_activate(*old(self), disabled, checked),
    {
        if disabled || self.locked {
            return None;
        }
        self.locked = true;
        Some(!checked)
    }

    /// The lock's timer has run out: activations are taken again.
    pub fn release(&mut self)
        ensures
            !final(self).locked,
    {
        self.locked = false;
    }
}

/// One tap toggles once: after an accepted activation, every further one
/// before the lock is released reports nothing.
pub proof fn lemma_one_toggle_per_tap(
    lock: ActivationLock,
    checked: bool,
    disabled_again: bool,
    checked_again: bool,
)
    requires
        spec_activate(lock, false, checked).1 is Some,
    ensures
        spec_activate(spec_activate(lock, false, checked).0, disabled_again, checked_again).1 is None,
{
}

} // verus!
