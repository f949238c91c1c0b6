//! The event-tap controller: the Disabled/Enabled state machine and the
//! per-event decision pipeline.
//!
//! The operating system owns the interception handle and delivers each
//! event synchronously; this module owns every decision made inside the
//! callback.  The pipeline runs modifier gate, layout detector and remap
//! table in that order, and on a miss at any stage the event passes
//! through untouched.  Tap-fault notifications bypass the pipeline and
//! only move the state machine.

use vstd::prelude::*;

use crate::errors::RemapError;
use crate::layout::{LayoutReading, spec_layout_matches};
use crate::modifiers::{ModifierMask, gate_allows, policy_for, spec_gate_allows, spec_policy_for};
use crate::remap::{PunctuationPolicy, RemapDirection, remap_key, spec_remap_key};

verus! {

/// Why the operating system reported the tap disabled.
#[derive(Clone, Copy, Debug, PartialEq, Eq, Structural)]
pub enum DisableReason {
    /// The callback overran its delivery budget.
    Timeout,
    /// The user (or another process) turned event taps off.
    UserInput,
}

/// The controller's state machine.  It is created at install time,
/// leaves `Enabled` only on an operating-system-reported fault, and
/// recovers only by an explicit re-enable or a process restart.
#[derive(Clone, Copy, Debug, PartialEq, Eq, Structural)]
pub enum TapState {
    Uninitialized,
    Enabled,
    Disabled(DisableReason),
}

impl TapState {
    /// The error a state stands for: a disabled tap degrades service
    /// until it is re-enabled or the process restarts; every other
    /// state is healthy.
    pub open spec fn spec_error(self) -> Option<RemapError> {
        match self {
            TapState::Disabled(_) => Some(RemapError::TapDisabled),
            _ => None,
        }
    }

    /// Classifies the state under the error taxonomy.
    pub fn error(&self) -> (r: Option<RemapError>)
        ensures
            r == self.spec_error(),
    {
        match self {
            TapState::Disabled(_) => Some(RemapError::TapDisabled),
            _ => None,
        }
    }
}

/// Whether a key event was a press or a release.  Both run the same
/// pipeline.
#[derive(Clone, Copy, Debug, PartialEq, Eq, Structural)]
pub enum KeyPhase {
    Down,
    Up,
}

/// One delivered event, reduced to the plain values the decisions need.
#[derive(Clone, Copy, Debug, PartialEq, Eq, Structural)]
pub enum TapEvent {
    /// A key press or release, with its keycode and the modifiers held.
    Key { phase: KeyPhase, keycode: u64, mask: ModifierMask },
    /// A tap-fault notification.
    DisabledNotice { reason: DisableReason },
    /// Anything else the system delivers passes through untouched.
    Other,
}

/// The four event categories the tap registers interest in.
#[derive(Clone, Copy, Debug, PartialEq, Eq, Structural)]
pub enum EventCategory {
    KeyDown,
    KeyUp,
    TapDisabledByTimeout,
    TapDisabledByUserInput,
}

/// How the interception handle must be installed.
#[derive(Clone, Debug)]
pub struct TapConfig {
    /// Exactly the four categories the callback handles.
    pub categories: Vec<EventCategory>,
    /// Insert at the head of the delivery chain, before any other
    /// consumer.
    pub head_insertion: bool,
    /// Request the mode that permits in-place mutation, synchronously.
    pub allow_mutation: bool,
}

/// Returns the installation request: exactly the four event categories,
/// head insertion, and the observe-and-mutate mode.
pub fn install_config() -> (c: TapConfig)
    ensures
        c.categories@ =~= seq![
            EventCategory::KeyDown,
            EventCategory::KeyUp,
            EventCategory::TapDisabledByTimeout,
            EventCategory::TapDisabledByUserInput,
        ],
        c.head_insertion,
        c.allow_mutation,
{
    let mut categories: Vec<EventCategory> = Vec::new();
    categories.push(EventCategory::KeyDown);
    categories.push(EventCategory::KeyUp);
    categories.push(EventCategory::TapDisabledByTimeout);
    categories.push(EventCategory::TapDisabledByUserInput);
    TapConfig { categories, head_insertion: true, allow_mutation: true }
}

/// The state after a tap-disabled notification: a live tap becomes
/// `Disabled` with the reported reason; a tap already disabled stays
/// exactly as it is.
pub open spec fn spec_after_disable(s: TapState, reason: DisableReason) -> TapState {
    match s {
        TapState::Disabled(first) => TapState::Disabled(first),
        _ => TapState::Disabled(reason),
    }
}

/// A tap-disabled notification moves `Enabled` to `Disabled` exactly
/// once: the first notification performs the whole transition, and a
/// second consecutive notification leaves the state untouched.
pub proof fn lemma_tap_disable_idempotent(s: TapState, r1: DisableReason, r2: DisableReason)
    ensures
        s is Enabled ==> spec_after_disable(s, r1) == TapState::Disabled(r1),
        spec_after_disable(spec_after_disable(s, r1), r2) == spec_after_disable(s, r1),
{
}

/// The error-severity log line for a tap-disabled notification.
pub open spec fn spec_disable_log_line(reason: DisableReason) -> Seq<char> {
    match reason {
        DisableReason::Timeout => "event tap disabled by timeout"@,
        DisableReason::UserInput => "event tap disabled by user input"@,
    }
}

/// Returns the log line for a tap-disabled notification.
pub fn disable_log_line(reason: DisableReason) -> (r: &'static str)
    ensures
        r@ == spec_disable_log_line(reason),
{
    match reason {
        DisableReason::Timeout => "event tap disabled by timeout",
        DisableReason::UserInput => "event tap disabled by user input",
    }
}

/// The recovery handler's log distinguishes timeout-induced from
/// user-toggled disablement: the two reasons never share a log line.
pub proof fn lemma_disable_log_distinguishes()
    ensures
        spec_disable_log_line(DisableReason::Timeout) != spec_disable_log_line(
            DisableReason::UserInput,
        ),
{
    reveal_strlit("event tap disabled by timeout");
    reveal_strlit("event tap disabled by user input");
    assert(spec_disable_log_line(DisableReason::Timeout).len() != spec_disable_log_line(
        DisableReason::UserInput,
    ).len());
}

/// Owns the state machine and the per-event decisions.  The direction
/// and the table policy are fixed at construction for the process's
/// lifetime; the state is written by nothing outside this impl.
pub struct TapController {
    state: TapState,
    direction: RemapDirection,
    punctuation: PunctuationPolicy,
}

impl TapController {
    /// The state machine's current state.
    pub closed spec fn spec_state(self) -> TapState {
        self.state
    }

    /// The remap direction this process runs.
    pub closed spec fn spec_direction(self) -> RemapDirection {
        self.direction
    }

    /// The punctuation policy of the tables.
    pub closed spec fn spec_punctuation(self) -> PunctuationPolicy {
        self.punctuation
    }

    /// A new controller, not yet installed.
    pub fn new(direction: RemapDirection, punctuation: PunctuationPolicy) -> (c: TapController)
        ensures
            c.spec_state() is Uninitialized,
            c.spec_direction() == direction,
            c.spec_punctuation() == punctuation,
    {
        TapController { state: TapState::Uninitialized, direction, punctuation }
    }

    /// Returns the current state.
    pub fn state(&self) -> (s: TapState)
        ensures
            s == self.spec_state(),
    {
        self.state
    }

    /// Returns the remap direction.
    pub fn direction(&self) -> (d: RemapDirection)
        ensures
            d == self.spec_direction(),
    {
        self.direction
    }

    /// Returns the punctuation policy.
    pub fn punctuation(&self) -> (p: PunctuationPolicy)
        ensures
            p == self.spec_punctuation(),
    {
        self.punctuation
    }

    /// Records that the interception handle was installed and is live.
    /// Called once, after the operating system accepted the
    /// registration; an authorization failure never reaches this point.
    pub fn install(&mut self)
        requires
            old(self).spec_state() is Uninitialized,
        ensures
            final(self).spec_state() is Enabled,
            final(self).spec_direction() == old(self).spec_direction(),
            final(self).spec_punctuation() == old(self).spec_punctuation(),
    {
        self.state = TapState::Enabled;
    }

    /// Explicit re-enable.  Idempotent: from any state the tap is
    /// `Enabled` afterwards.  Nothing calls this automatically; once
    /// disabled, the tap stays disabled until this call or a process
    /// restart.
    pub fn enable(&mut self)
        ensures
            final(self).spec_state() is Enabled,
            final(self).spec_direction() == old(self).spec_direction(),
            final(self).spec_punctuation() == old(self).spec_punctuation(),
    {
        self.state = TapState::Enabled;
    }

    /// Reacts to a tap-disabled notification: the recovery handler's
    /// whole baseline behaviour.  Idempotent on repeated delivery; never
    /// synthesizes or replays a substitute event.
    pub fn on_tap_disabled(&mut self, reason: DisableReason)
        ensures
            final(self).spec_state() == spec_after_disable(old(self).spec_state(), reason),
            final(self).spec_direction() == old(self).spec_direction(),
            final(self).spec_punctuation() == old(self).spec_punctuation(),
    {
        match self.state {
            TapState::Disabled(_) => {},
            _ => {
                self.state = TapState::Disabled(reason);
            },
        }
    }

    /// Whether the layout detector must be consulted for this event:
    /// only while the tap is live and the modifier gate allows the
    /// attempt.  The query is made fresh per qualifying event and its
    /// answer is never cached.
    pub open spec fn spec_wants_layout_query(self, mask: ModifierMask) -> bool {
        self.spec_state() is Enabled && spec_gate_allows(
            spec_policy_for(self.spec_direction()),
            mask,
        )
    }

    /// Decides whether the layout must be queried for a key event.
    pub fn wants_layout_query(&self, mask: ModifierMask) -> (r: bool)
        ensures
            r == self.spec_wants_layout_query(mask),
    {
        matches!(self.state, TapState::Enabled) && gate_allows(policy_for(self.direction), mask)
    }

    /// The whole per-key decision: `Some(mapped)` exactly when the tap
    /// is live, the modifier gate allows the attempt, a reading was
    /// obtained and
    /// matches the direction's source layout, and the table maps the
    /// key.  Everything else passes through.
    pub open spec fn spec_decide_key(
        self,
        keycode: u64,
        mask: ModifierMask,
        reading: Option<LayoutReading>,
    ) -> Option<u64> {
        if self.spec_wants_layout_query(mask) {
            match reading {
                Some(rd) => spec_remap_key(
                    keycode,
                    self.spec_direction(),
                    self.spec_punctuation(),
                    spec_layout_matches(self.spec_direction(), rd),
                ),
                None => None,
            }
        } else {
            None
        }
    }

    /// Runs the pipeline for one key event.  `reading` is the layout
    /// query's outcome, or `None` where no query was made; on a gate
    /// refusal, a missing or failed reading, a layout mismatch or a key
    /// absent from the table, the answer is `None` and the caller must
    /// deliver the event untouched.
    pub fn decide_key_event(
        &self,
        keycode: u64,
        mask: ModifierMask,
        reading: &Option<LayoutReading>,
    ) -> (r: Option<u64>)
        ensures
            r == self.spec_decide_key(keycode, mask, *reading),
            !(self.spec_state() is Enabled) ==> r is None,
    {
        if !self.wants_layout_query(mask) {
            return None;
        }
        match reading {
            Some(rd) => {
                let active = crate::layout::layout_matches(self.direction, rd);
                remap_key(keycode, self.direction, self.punctuation, active)
            },
            None => None,
        }
    }

    /// The callback entry: handles one delivered event.  Key events run
    /// the pipeline and leave the state alone; fault notifications move
    /// the state machine and map nothing.
    pub fn handle_event(&mut self, event: &TapEvent, reading: &Option<LayoutReading>) -> (r: Option<
        u64,
    >)
        ensures
            final(self).spec_direction() == old(self).spec_direction(),
            final(self).spec_punctuation() == old(self).spec_punctuation(),
            (*event) matches TapEvent::Key { phase, keycode, mask } ==> (
                final(self).spec_state() == old(self).spec_state()
                && r == old(self).spec_decide_key(keycode, mask, *reading)
            ),
            (*event) matches TapEvent::DisabledNotice { reason } ==> (
                final(self).spec_state() == spec_after_disable(old(self).spec_state(), reason)
                && r is None
            ),
            (*event) is Other ==> (final(self).spec_state() == old(self).spec_state() && r is None),
    {
        match event {
            TapEvent::Key { phase: _, keycode, mask } => {
                self.decide_key_event(*keycode, *mask, reading)
            },
            TapEvent::DisabledNotice { reason } => {
                self.on_tap_disabled(*reason);
                None
            },
            TapEvent::Other => None,
        }
    }
}

/// While the table does not map a key, no decision maps it either: the
/// pipeline preserves every keycode that is absent from the direction's
/// table, whatever the state, the modifiers and the reading.
pub proof fn lemma_unmapped_key_passes_through(
    c: TapController,
    keycode: u64,
    mask: ModifierMask,
    reading: Option<LayoutReading>,
)
    requires
        crate::remap::spec_lookup(c.spec_direction(), c.spec_punctuation(), keycode) is None,
    ensures
        c.spec_decide_key(keycode, mask, reading) is None,
{
}

/// A null or undecodable layout reading always ends in passthrough: the
/// pipeline never maps a key on a failed detection, whatever the state
/// and the modifiers.
pub proof fn lemma_failed_reading_passes_through(
    c: TapController,
    keycode: u64,
    mask: ModifierMask,
    reading: LayoutReading,
)
    requires
        crate::layout::spec_detection_error(reading) is Some,
    ensures
        c.spec_decide_key(keycode, mask, Some(reading)) is None,
{
}

} // verus!
