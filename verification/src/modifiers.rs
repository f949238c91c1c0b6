//! The modifier gate: decides from the held-modifier bitset whether a
//! remap should even be attempted for an event.
//!
//! Exactly one of two fixed policies is active for a given direction:
//! remap only while Control or Function is held, or remap only while
//! none of Command, Control and Function is held.

use vstd::prelude::*;

use crate::remap::RemapDirection;

verus! {

/// The modifier keys held while an event was delivered, sampled per
/// event and never persisted.
#[derive(Clone, Copy, Debug, PartialEq, Eq, Structural)]
pub struct ModifierMask {
    pub command: bool,
    pub control: bool,
    pub function: bool,
    pub shift: bool,
}

/// The two modifier-gate policies.  A process instance runs exactly one
/// of them, chosen by its remap direction.
#[derive(Clone, Copy, Debug, PartialEq, Eq, Structural)]
pub enum GatePolicy {
    /// Attempt the remap only while Control or Function is held.
    OnlyWhenHeld,
    /// Attempt the remap only while none of Command, Control and
    /// Function is held.
    OnlyWhenAbsent,
}

/// What the given policy answers for the given mask.
pub open spec fn spec_gate_allows(policy: GatePolicy, mask: ModifierMask) -> bool {
    match policy {
        GatePolicy::OnlyWhenHeld => mask.control || mask.function,
        GatePolicy::OnlyWhenAbsent => !mask.command && !mask.control && !mask.function,
    }
}

/// The policy that belongs to each direction: remapping Dvorak positions
/// to QWERTY positions serves layout-specific shortcuts and runs only
/// under a chord, while the opposite direction serves plain typing and
/// runs only without one.
pub open spec fn spec_policy_for(direction: RemapDirection) -> GatePolicy {
    match direction {
        RemapDirection::DvorakToQwerty => GatePolicy::OnlyWhenHeld,
        RemapDirection::QwertyToDvorak => GatePolicy::OnlyWhenAbsent,
    }
}

/// Returns the modifier-gate policy of the given direction.
pub fn policy_for(direction: RemapDirection) -> (r: GatePolicy)
    ensures
        r == spec_policy_for(direction),
{
    match direction {
        RemapDirection::DvorakToQwerty => GatePolicy::OnlyWhenHeld,
        RemapDirection::QwertyToDvorak => GatePolicy::OnlyWhenAbsent,
    }
}

/// Evaluates a gate policy on a modifier mask.  Pure.
pub fn gate_allows(policy: GatePolicy, mask: ModifierMask) -> (r: bool)
    ensures
        r == spec_gate_allows(policy, mask),
{
    match policy {
        GatePolicy::OnlyWhenHeld => mask.control || mask.function,
        GatePolicy::OnlyWhenAbsent => !mask.command && !mask.control && !mask.function,
    }
}

/// Decides whether a remap should be attempted for an event delivered
/// with the given modifiers, under the direction's own policy.
pub fn should_attempt_remap(mask: ModifierMask, direction: RemapDirection) -> (r: bool)
    ensures
        r == spec_gate_allows(spec_policy_for(direction), mask),
{
    gate_allows(policy_for(direction), mask)
}

/// The two policies answer in opposition: without any gating modifier
/// held, only-when-held refuses and only-when-absent allows; with
/// Control or Function held it is the other way around.  They never
/// both allow the same mask.
pub proof fn lemma_gate_policies_opposed(mask: ModifierMask)
    ensures
        (!mask.command && !mask.control && !mask.function) ==> (
            !spec_gate_allows(GatePolicy::OnlyWhenHeld, mask)
            && spec_gate_allows(GatePolicy::OnlyWhenAbsent, mask)
        ),
        (mask.control || mask.function) ==> (
            spec_gate_allows(GatePolicy::OnlyWhenHeld, mask)
            && !spec_gate_allows(GatePolicy::OnlyWhenAbsent, mask)
        ),
        !(spec_gate_allows(GatePolicy::OnlyWhenHeld, mask)
            && spec_gate_allows(GatePolicy::OnlyWhenAbsent, mask)),
{
}

} // verus!
