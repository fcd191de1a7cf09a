//! The input reconciler: a per-button transition state machine fed by raw
//! down/up events, plus the analog stick positions with their deadzone rule.
//!
//! Each button is in one of three recorded states (or absent, meaning idle):
//! - `PRESSED`: edge, just went down, reported once as `click`;
//! - `HELD`: level, still down, reported as `press` on every tick;
//! - `RELEASED`: edge, just went up, reported once as `release`.
//!
//! Three lookup levels drive the update for an incoming raw event:
//! 1. a button already recorded this tick is merged (`merge_state`): a
//!    button marked `PRESSED` stays `PRESSED`, a `HELD` one flips to
//!    `PRESSED` (re-press semantics), a `RELEASED` one becomes `HELD` on a
//!    down and stays `RELEASED` on an up;
//! 2. a button with prior-tick history only is seeded (`seed_state`): a
//!    down continues as `HELD`, an up becomes `RELEASED` — the press edge
//!    was already reported in an earlier tick. The one exception is a
//!    button whose prior state is `RELEASED` seeing another up: its
//!    release was already reported, so no entry is recorded at all and
//!    the button stays cleared back to idle (`step_entry`);
//! 3. a button with no history gets the natural mapping (`fresh_state`):
//!    down is a new `PRESSED` edge, up is a `RELEASED` edge.
//!
//! At each tick boundary the current map is folded into the previous-tick
//! map through `carry_state`: an edge `PRESSED` settles into the level
//! `HELD`, `HELD` persists, and a reported `RELEASED` disappears.

use vstd::prelude::*;
use vstd::pervasive::VecAdditionalExecFns;
use crate::buttons::Button;
use crate::buttons::PhysicalButton;
use crate::buttons::btn_index;
use crate::buttons::button_index;
use crate::buttons::lemma_btn_index_bounds;
use crate::buttons::lemma_btn_index_injective;
use crate::buttons::spec_button_from_physical;
use crate::buttons::button_from_physical;

verus! {

/// The recorded transition state of a button that has non-idle history.
#[derive(Clone, Copy, PartialEq, Eq, Structural, Debug)]
pub enum ButtonState {
    PRESSED,
    HELD,
    RELEASED,
}

/// A raw digital transition from the input source: the physical control
/// went down or up.
#[derive(Clone, Copy, PartialEq, Eq, Structural, Debug)]
pub enum RawEvent {
    DOWN,
    UP,
}

/// One of the analog axis identities the input source reports. Only the
/// four stick axes move a stored coordinate; the rest are ignored.
#[derive(Clone, Copy, PartialEq, Eq, Structural, Debug)]
pub enum Axis {
    LeftStickX,
    LeftStickY,
    LeftZ,
    RightStickX,
    RightStickY,
    RightZ,
    DPadX,
    DPadY,
    Unknown,
}

/// Merge table: a new raw event against the entry already recorded this
/// tick. The current-tick entry takes priority over history.
pub open spec fn merge_state(s: ButtonState, e: RawEvent) -> ButtonState {
    match s {
        ButtonState::PRESSED => ButtonState::PRESSED,
        ButtonState::HELD => ButtonState::PRESSED,
        ButtonState::RELEASED => match e {
            RawEvent::DOWN => ButtonState::HELD,
            RawEvent::UP => ButtonState::RELEASED,
        },
    }
}

/// Seed rule: the first event of a tick for a button that has an entry in
/// the previous tick's map. The edge was already reported back then, so a
/// down continues as the level `HELD` and an up is a fresh release.
pub open spec fn seed_state(e: RawEvent) -> ButtonState {
    match e {
        RawEvent::DOWN => ButtonState::HELD,
        RawEvent::UP => ButtonState::RELEASED,
    }
}

/// Natural mapping for a button with no history at all.
pub open spec fn fresh_state(e: RawEvent) -> ButtonState {
    match e {
        RawEvent::DOWN => ButtonState::PRESSED,
        RawEvent::UP => ButtonState::RELEASED,
    }
}

/// The three-level precedence of the reconciler: current-tick entry first,
/// then prior-tick history, then the natural mapping.
pub open spec fn step_button(
    cur: Option<ButtonState>,
    prev: Option<ButtonState>,
    e: RawEvent,
) -> ButtonState {
    match cur {
        Some(s) => merge_state(s, e),
        None => match prev {
            Some(_) => seed_state(e),
            None => fresh_state(e),
        },
    }
}

/// What the button's current-tick entry becomes when a raw event is
/// recorded: the stepped state, except that a button with no current
/// entry whose previous-tick state is `RELEASED` gets no entry from a
/// further up — its release was already reported, and the map is left
/// unchanged so the button stays absent from the delta until pressed
/// again.
pub open spec fn step_entry(
    cur: Option<ButtonState>,
    prev: Option<ButtonState>,
    e: RawEvent,
) -> Option<ButtonState> {
    if cur is None && prev == Some(ButtonState::RELEASED) && e == RawEvent::UP {
        None
    } else {
        Some(step_button(cur, prev, e))
    }
}

/// What a recorded state becomes at the tick boundary when no further
/// event arrives: a fresh press settles into the `HELD` level, a held
/// button stays held, and a reported release disappears.
pub open spec fn carry_state(prev: Option<ButtonState>) -> Option<ButtonState> {
    match prev {
        Some(ButtonState::PRESSED) => Some(ButtonState::HELD),
        Some(ButtonState::HELD) => Some(ButtonState::HELD),
        _ => None,
    }
}

/// The state a button reports this tick: its current-tick entry if any,
/// else its prior-tick state carried over the boundary.
pub open spec fn effective_state(
    cur: Option<ButtonState>,
    prev: Option<ButtonState>,
) -> Option<ButtonState> {
    match cur {
        Some(s) => Some(s),
        None => carry_state(prev),
    }
}

/// Deadzone rule: a scaled axis sample whose magnitude is below 5000
/// collapses to exactly zero; anything larger is kept unchanged.
pub open spec fn spec_deadzone(v: int) -> int {
    if -5000 < v && v < 5000 {
        0
    } else {
        v
    }
}

/// Clamp to the signed 16-bit range of a stored stick coordinate.
pub open spec fn clamp16(v: int) -> int {
    if v < -32768 {
        -32768
    } else if v > 32767 {
        32767
    } else {
        v
    }
}

/// What an axis sample becomes once stored: deadzoned, then clamped.
pub open spec fn stored_axis(v: int) -> int {
    clamp16(spec_deadzone(v))
}

/// A stick position with both coordinates inside the signed 16-bit range.
pub open spec fn in_stick_range(p: (i32, i32)) -> bool {
    &&& -32768 <= p.0 <= 32767
    &&& -32768 <= p.1 <= 32767
}

/// Applies the deadzone to a scaled axis sample.
pub fn get_axis_values(value: i32) -> (r: i32)
    ensures
        r as int == spec_deadzone(value as int),
{
    if -5000 < value && value < 5000 {
        0
    } else {
        value
    }
}

/// The controller snapshot: the current tick's button map (indexed by
/// `btn_index`), the previous tick's effective map, and the live and
/// previous positions of both sticks.
pub struct ControllerState {
    pub button_states: Vec<Option<ButtonState>>,
    pub old_state: Vec<Option<ButtonState>>,
    pub r_stick: (i32, i32),
    pub l_stick: (i32, i32),
    pub old_r_stick: (i32, i32),
    pub old_l_stick: (i32, i32),
}

impl ControllerState {
    /// Well-formedness: both button maps cover the full button set, and
    /// all stored stick coordinates are inside the signed 16-bit range.
    pub open spec fn wf(self) -> bool {
        &&& self.button_states@.len() == 18
        &&& self.old_state@.len() == 18
        &&& in_stick_range(self.r_stick)
        &&& in_stick_range(self.l_stick)
        &&& in_stick_range(self.old_r_stick)
        &&& in_stick_range(self.old_l_stick)
    }

    /// The current tick's recorded state of a button, if any.
    pub open spec fn cur_of(self, b: Button) -> Option<ButtonState> {
        self.button_states@[btn_index(b)]
    }

    /// The previous tick's effective state of a button, if any.
    pub open spec fn prev_of(self, b: Button) -> Option<ButtonState> {
        self.old_state@[btn_index(b)]
    }

    /// The state a button reports this tick.
    pub open spec fn eff_of(self, b: Button) -> Option<ButtonState> {
        effective_state(self.cur_of(b), self.prev_of(b))
    }

    /// A fresh snapshot: no button history, both sticks centered.
    pub fn new() -> (r: ControllerState)
        ensures
            r.wf(),
            forall|i: int| 0 <= i < 18 ==> r.button_states@[i] is None,
            forall|i: int| 0 <= i < 18 ==> r.old_state@[i] is None,
            r.r_stick == (0i32, 0i32),
            r.l_stick == (0i32, 0i32),
            r.old_r_stick == (0i32, 0i32),
            r.old_l_stick == (0i32, 0i32),
    {
        ControllerState {
            button_states: empty_states(),
            old_state: empty_states(),
            r_stick: (0, 0),
            l_stick: (0, 0),
            old_r_stick: (0, 0),
            old_l_stick: (0, 0),
        }
    }

    /// A copy of the previous tick's button map.
    pub fn get_old_state(&self) -> (r: Vec<Option<ButtonState>>)
        requires
            self.wf(),
        ensures
            r@ == self.old_state@,
    {
        let mut r: Vec<Option<ButtonState>> = Vec::new();
        let mut i: usize = 0;
        while i < 18
            invariant
                self.wf(),
                i <= 18,
                r@ == self.old_state@.subrange(0, i as int),
            decreases 18 - i,
        {
            r.push(self.old_state[i]);
            proof {
                assert(r@ =~= self.old_state@.subrange(0, i + 1));
            }
            i += 1;
        }
        proof {
            assert(r@ =~= self.old_state@);
        }
        r
    }

    /// Records one raw digital transition for one button, applying the
    /// three-level precedence, and returns the button with its resulting
    /// recorded state. A button whose release was already reported in the
    /// previous tick gets no new entry from a further up: the map is left
    /// unchanged so the release is never re-reported.
    pub fn set_button_states(&mut self, pair: (Button, RawEvent)) -> (r: (Button, ButtonState))
        requires
            old(self).wf(),
        ensures
            final(self).wf(),
            r.0 == pair.0,
            r.1 == step_button(old(self).cur_of(pair.0), old(self).prev_of(pair.0), pair.1),
            final(self).button_states@ == (match step_entry(
                old(self).cur_of(pair.0),
                old(self).prev_of(pair.0),
                pair.1,
            ) {
                Some(st) => old(self).button_states@.update(btn_index(pair.0), Some(st)),
                None => old(self).button_states@,
            }),
            final(self).cur_of(pair.0) == step_entry(
                old(self).cur_of(pair.0),
                old(self).prev_of(pair.0),
                pair.1,
            ),
            forall|b: Button| b != pair.0 ==> #[trigger] final(self).cur_of(b) == old(
                self,
            ).cur_of(b),
            final(self).old_state@ == old(self).old_state@,
            final(self).r_stick == old(self).r_stick,
            final(self).l_stick == old(self).l_stick,
            final(self).old_r_stick == old(self).old_r_stick,
            final(self).old_l_stick == old(self).old_l_stick,
    {
        let (new_button, ev) = pair;
        let idx = button_index(new_button);
        let ns: ButtonState = match self.button_states[idx] {
            Some(s) => {
                let merged = match s {
                    ButtonState::PRESSED => ButtonState::PRESSED,
                    ButtonState::HELD => ButtonState::PRESSED,
                    ButtonState::RELEASED => match ev {
                        RawEvent::DOWN => ButtonState::HELD,
                        RawEvent::UP => ButtonState::RELEASED,
                    },
                };
                self.button_states.set(idx, Some(merged));
                merged
            },
            None => match self.old_state[idx] {
                Some(ButtonState::RELEASED) => match ev {
                    RawEvent::DOWN => {
                        self.button_states.set(idx, Some(ButtonState::HELD));
                        ButtonState::HELD
                    },
                    RawEvent::UP => {
                        // The release was already reported: record nothing,
                        // so the button stays absent until pressed again.
                        ButtonState::RELEASED
                    },
                },
                Some(_) => {
                    let seeded = match ev {
                        RawEvent::DOWN => ButtonState::HELD,
                        RawEvent::UP => ButtonState::RELEASED,
                    };
                    self.button_states.set(idx, Some(seeded));
                    seeded
                },
                None => {
                    let first = match ev {
                        RawEvent::DOWN => ButtonState::PRESSED,
                        RawEvent::UP => ButtonState::RELEASED,
                    };
                    self.button_states.set(idx, Some(first));
                    first
                },
            },
        };
        proof {
            lemma_btn_index_bounds(new_button);
            if step_entry(old(self).cur_of(new_button), old(self).prev_of(new_button), ev)
                is None {
                assert(self.button_states@ =~= old(self).button_states@);
            }
            assert forall|b: Button| b != new_button implies #[trigger] self.cur_of(b) == old(
                self,
            ).cur_of(b) by {
                lemma_btn_index_bounds(b);
                if btn_index(b) == btn_index(new_button) {
                    lemma_btn_index_injective(b, new_button);
                }
            }
        }
        (new_button, ns)
    }

    /// Overwrites one stick coordinate with a deadzoned, clamped sample.
    /// Axes outside the four stick axes leave the snapshot unchanged.
    pub fn set_axis_value(&mut self, axis: Axis, value: i32)
        requires
            old(self).wf(),
        ensures
            final(self).wf(),
            final(self).button_states@ == old(self).button_states@,
            final(self).old_state@ == old(self).old_state@,
            final(self).old_r_stick == old(self).old_r_stick,
            final(self).old_l_stick == old(self).old_l_stick,
            final(self).l_stick.0 as int == if axis == Axis::LeftStickX {
                stored_axis(value as int)
            } else {
                old(self).l_stick.0 as int
            },
            final(self).l_stick.1 as int == if axis == Axis::LeftStickY {
                stored_axis(value as int)
            } else {
                old(self).l_stick.1 as int
            },
            final(self).r_stick.0 as int == if axis == Axis::RightStickX {
                stored_axis(value as int)
            } else {
                old(self).r_stick.0 as int
            },
            final(self).r_stick.1 as int == if axis == Axis::RightStickY {
                stored_axis(value as int)
            } else {
                old(self).r_stick.1 as int
            },
    {
        let dz = get_axis_values(value);
        let v: i32 = if dz < -32768 {
            -32768
        } else if dz > 32767 {
            32767
        } else {
            dz
        };
        match axis {
            Axis::LeftStickX => {
                self.l_stick = (v, self.l_stick.1);
            }
            Axis::LeftStickY => {
                self.l_stick = (self.l_stick.0, v);
            }
            Axis::RightStickX => {
                self.r_stick = (v, self.r_stick.1);
            }
            Axis::RightStickY => {
                self.r_stick = (self.r_stick.0, v);
            }
            _ => {}
        }
    }

    /// Ends the tick: folds the current button map into the previous-tick
    /// map through `carry_state`, clears the current map, and snapshots
    /// both stick positions for the next tick's change detection.
    pub fn advance_tick(&mut self)
        requires
            old(self).wf(),
        ensures
            final(self).wf(),
            forall|i: int| 0 <= i < 18 ==> final(self).button_states@[i] is None,
            forall|i: int| 0 <= i < 18 ==> final(self).old_state@[i] == effective_state(
                old(self).button_states@[i],
                old(self).old_state@[i],
            ),
            forall|b: Button| #[trigger] final(self).cur_of(b) is None,
            forall|b: Button| #[trigger] final(self).prev_of(b) == old(self).eff_of(b),
            final(self).r_stick == old(self).r_stick,
            final(self).l_stick == old(self).l_stick,
            final(self).old_r_stick == old(self).r_stick,
            final(self).old_l_stick == old(self).l_stick,
    {
        let mut i: usize = 0;
        while i < 18
            invariant
                old(self).wf(),
                self.button_states@.len() == 18,
                self.old_state@.len() == 18,
                i <= 18,
                forall|j: int| 0 <= j < i ==> self.button_states@[j] is None,
                forall|j: int| 0 <= j < i ==> self.old_state@[j] == effective_state(
                    old(self).button_states@[j],
                    old(self).old_state@[j],
                ),
                forall|j: int| i <= j < 18 ==> self.button_states@[j]
                    == old(self).button_states@[j],
                forall|j: int| i <= j < 18 ==> self.old_state@[j] == old(self).old_state@[j],
                self.r_stick == old(self).r_stick,
                self.l_stick == old(self).l_stick,
                self.old_r_stick == old(self).old_r_stick,
                self.old_l_stick == old(self).old_l_stick,
            decreases 18 - i,
        {
            let eff: Option<ButtonState> = match self.button_states[i] {
                Some(s) => Some(s),
                None => match self.old_state[i] {
                    Some(ButtonState::PRESSED) => Some(ButtonState::HELD),
                    Some(ButtonState::HELD) => Some(ButtonState::HELD),
                    _ => None,
                },
            };
            self.old_state.set(i, eff);
            self.button_states.set(i, None);
            i += 1;
        }
        self.old_r_stick = self.r_stick;
        self.old_l_stick = self.l_stick;
        proof {
            assert forall|b: Button| #[trigger] self.cur_of(b) is None by {
                lemma_btn_index_bounds(b);
            }
            assert forall|b: Button| #[trigger] self.prev_of(b) == old(self).eff_of(b) by {
                lemma_btn_index_bounds(b);
            }
        }
    }
}

/// A button map with no recorded entry for any button.
fn empty_states() -> (r: Vec<Option<ButtonState>>)
    ensures
        r@.len() == 18,
        forall|i: int| 0 <= i < 18 ==> r@[i] is None,
{
    let mut r: Vec<Option<ButtonState>> = Vec::new();
    let mut i: usize = 0;
    while i < 18
        invariant
            i <= 18,
            r@.len() == i,
            forall|j: int| 0 <= j < i ==> r@[j] is None,
        decreases 18 - i,
    {
        r.push(None);
        i += 1;
    }
    r
}

/// Translates one physical-button transition into the logical vocabulary
/// and records it; a physical button with no mapping entry is silently
/// ignored.
pub fn process_button_action(
    controller_state: &mut ControllerState,
    btn: &PhysicalButton,
    ev: RawEvent,
)
    requires
        old(controller_state).wf(),
    ensures
        final(controller_state).wf(),
        match spec_button_from_physical(*btn) {
            Some(b) => final(controller_state).button_states@ == (match step_entry(
                old(controller_state).cur_of(b),
                old(controller_state).prev_of(b),
                ev,
            ) {
                Some(st) => old(controller_state).button_states@.update(btn_index(b), Some(st)),
                None => old(controller_state).button_states@,
            }),
            None => final(controller_state).button_states@ == old(
                controller_state,
            ).button_states@,
        },
        final(controller_state).old_state@ == old(controller_state).old_state@,
        final(controller_state).r_stick == old(controller_state).r_stick,
        final(controller_state).l_stick == old(controller_state).l_stick,
        final(controller_state).old_r_stick == old(controller_state).old_r_stick,
        final(controller_state).old_l_stick == old(controller_state).old_l_stick,
{
    if let Some(switch_key) = button_from_physical(*btn) {
        controller_state.set_button_states((switch_key, ev));
    }
}

} // verus!
