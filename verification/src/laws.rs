//! The reconciler's guarantees, stated and proved over the state machine
//! model: what a tick's event history can and cannot influence, how a
//! press is reported across tick boundaries, that a release is reported
//! exactly once, and which commands a tick's delta carries.

use vstd::prelude::*;
use crate::buttons::Button;
use crate::buttons::btn_index;
use crate::buttons::lemma_button_of_index_inverse;
use crate::state::ButtonState;
use crate::state::ControllerState;
use crate::state::RawEvent;
use crate::state::effective_state;
use crate::state::step_button;
use crate::state::step_entry;
use crate::packets::spec_button_packet;
use crate::packets::spec_button_packets_upto;
use crate::packets::spec_make_packets;

verus! {

/// The current-tick entry of one button after a sequence of raw events,
/// for a tick that began with no entry, given the button's previous-tick
/// state. Each event is applied exactly as `set_button_states` applies
/// it, by that function's contract.
pub open spec fn run_events(prev: Option<ButtonState>, es: Seq<RawEvent>) -> Option<ButtonState>
    decreases es.len(),
{
    if es.len() == 0 {
        None
    } else {
        step_entry(run_events(prev, es.drop_last()), prev, es.last())
    }
}

/// Within one tick, the recorded state of a button depends only on its
/// previous-tick state, its current-tick entry, and the newly applied raw
/// event — never on the event history that produced the entry: two
/// histories that left equal entries react identically to the next event.
pub proof fn lemma_state_depends_only_on_entry(
    prev: Option<ButtonState>,
    es1: Seq<RawEvent>,
    es2: Seq<RawEvent>,
    e: RawEvent,
)
    requires
        run_events(prev, es1) == run_events(prev, es2),
    ensures
        run_events(prev, es1.push(e)) == run_events(prev, es2.push(e)),
{
    assert(es1.push(e).drop_last() =~= es1);
    assert(es2.push(e).drop_last() =~= es2);
    assert(es1.push(e).last() == e);
    assert(es2.push(e).last() == e);
}

/// A button whose effective state this tick is the `PRESSED` edge reports
/// the `HELD` level on the next tick when no further event arrives: a
/// press sustained across a tick boundary reports `click` once and then
/// `press`, never `click` twice. After `advance_tick` the button's
/// previous-tick state is this tick's effective state and its current
/// entry is cleared, so the next tick's effective state with no events is
/// the carried one.
pub proof fn lemma_click_then_press(cur: Option<ButtonState>, prev: Option<ButtonState>)
    requires
        effective_state(cur, prev) == Some(ButtonState::PRESSED),
    ensures
        effective_state(None, effective_state(cur, prev)) == Some(ButtonState::HELD),
{
}

/// A held button keeps reporting the `HELD` level across event-less
/// ticks: the level persists while the condition does.
pub proof fn lemma_held_level_persists(cur: Option<ButtonState>, prev: Option<ButtonState>)
    requires
        effective_state(cur, prev) == Some(ButtonState::HELD),
    ensures
        effective_state(None, effective_state(cur, prev)) == Some(ButtonState::HELD),
{
}

/// A released button reports `release` exactly once: on the tick after
/// the one that reported `RELEASED` it is absent from the delta, a
/// duplicate raw up on that tick records no entry at all (so nothing is
/// re-reported and the state still ends the tick idle), the fully idle
/// button stays absent while no event arrives, and only a fresh down
/// event brings it back — as a new `PRESSED` edge.
pub proof fn lemma_release_reported_once(cur: Option<ButtonState>, prev: Option<ButtonState>)
    requires
        effective_state(cur, prev) == Some(ButtonState::RELEASED),
    ensures
        effective_state(None, effective_state(cur, prev)) is None,
        step_entry(None, effective_state(cur, prev), RawEvent::UP) is None,
        effective_state(None, None) is None,
        step_button(None, None, RawEvent::DOWN) == ButtonState::PRESSED,
{
}

/// The digital commands of the buttons below index `i` include the
/// command of every such button whose effective state is not idle.
proof fn lemma_upto_contains(s: ControllerState, b: Button, st: ButtonState, i: int)
    requires
        s.eff_of(b) == Some(st),
        0 <= btn_index(b) < i <= 18,
    ensures
        spec_button_packets_upto(s, i).contains(spec_button_packet(b, st)),
    decreases i,
{
    lemma_button_of_index_inverse(b);
    if i - 1 == btn_index(b) {
        let prefix = spec_button_packets_upto(s, i - 1);
        assert(spec_button_packets_upto(s, i)[prefix.len() as int] == spec_button_packet(b, st));
    } else {
        lemma_upto_contains(s, b, st, i - 1);
        let j = choose|j: int|
            0 <= j < spec_button_packets_upto(s, i - 1).len() && #[trigger] spec_button_packets_upto(
                s,
                i - 1,
            )[j] == spec_button_packet(b, st);
        assert(spec_button_packets_upto(s, i)[j] == spec_button_packet(b, st));
    }
}

/// Every button with a non-idle effective state this tick contributes its
/// digital command to the tick's delta.
pub proof fn lemma_delta_reports_effective_button(s: ControllerState, b: Button, st: ButtonState)
    requires
        s.wf(),
        s.eff_of(b) == Some(st),
    ensures
        spec_make_packets(s).contains(spec_button_packet(b, st)),
{
    lemma_upto_contains(s, b, st, 18);
    let j = choose|j: int|
        0 <= j < spec_button_packets_upto(s, 18).len() && #[trigger] spec_button_packets_upto(
            s,
            18,
        )[j] == spec_button_packet(b, st);
    assert(spec_make_packets(s)[j] == spec_button_packet(b, st));
}

/// A tick in which both sticks sit where the previous tick left them
/// emits no analog command at all: the delta is the digital commands
/// alone, even if samples with the same resulting coordinates were
/// recorded during the tick.
pub proof fn lemma_unchanged_sticks_emit_nothing(s: ControllerState)
    requires
        s.old_r_stick == s.r_stick,
        s.old_l_stick == s.l_stick,
    ensures
        spec_make_packets(s) == spec_button_packets_upto(s, 18),
{
    assert(spec_make_packets(s) =~= spec_button_packets_upto(s, 18));
}

} // verus!
