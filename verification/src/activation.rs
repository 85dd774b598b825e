//! The activation state machine, as a mathematical model.
//!
//! A machine state is the set of physically held keys together with whether
//! the scheduler is running. One press or release event steps the state
//! under the active profile:
//!
//! - In toggle mode, a press that completes the profile's activation
//!   combination — the combination was not satisfied before the press and is
//!   after it — is a qualifying edge, and every qualifying edge flips
//!   clicking, whichever key completed the combination. Releases never flip
//!   anything. A repeated press of a key already held counts as a release
//!   for combination tracking; the key is put back unless it is the repeat
//!   key, so that hammering the repeat key yields a fresh qualifying edge
//!   per press.
//! - In hold mode, clicking runs exactly while the repeat key and all
//!   activation keys are physically held.
//!
//! The executable state machine lives in `runtime`; its step function is
//! proved to follow `machine_step`.

use crate::profile::ProfileView;
use vstd::prelude::*;

verus! {

/// A normalized input event: a key code was pressed or released.
#[derive(Clone, Copy, Debug, PartialEq, Eq, Structural)]
pub enum KeyEvent {
    Pressed(u16),
    Released(u16),
}

/// The activation machine's state: the keys currently held and whether the
/// scheduler is running.
pub ghost struct MachineState {
    pub pressed: Set<u16>,
    pub running: bool,
}

/// Every activation key of the profile is held.
pub open spec fn combo_satisfied(pressed: Set<u16>, activation_keys: Seq<u16>) -> bool {
    forall|i: int|
        0 <= i < activation_keys.len() ==> pressed.contains(#[trigger] activation_keys[i])
}

/// The held-key set after a toggle-mode press of `key`: a fresh key is
/// added; a key already held counts as released and is put back unless it
/// is the repeat key.
pub open spec fn toggle_pressed_update(pressed: Set<u16>, key: u16, repeat_key: u16) -> Set<u16> {
    if pressed.contains(key) {
        if key == repeat_key {
            pressed.remove(key)
        } else {
            pressed
        }
    } else {
        pressed.insert(key)
    }
}

/// Whether a toggle-mode press of `key` is a qualifying edge: the
/// activation combination was not satisfied and the press completes it.
pub open spec fn toggle_edge(pressed: Set<u16>, p: ProfileView, key: u16) -> bool {
    !combo_satisfied(pressed, p.activation_keys) && combo_satisfied(
        toggle_pressed_update(pressed, key, p.repeat_key),
        p.activation_keys,
    )
}

/// The hold-mode run condition: the repeat key and every activation key are
/// held.
pub open spec fn hold_should_run(pressed: Set<u16>, p: ProfileView) -> bool {
    pressed.contains(p.repeat_key) && combo_satisfied(pressed, p.activation_keys)
}

/// Whether this event is a qualifying toggle-mode edge in state `s`.
pub open spec fn is_toggle_edge_event(s: MachineState, p: ProfileView, ev: KeyEvent) -> bool {
    match ev {
        KeyEvent::Pressed(key) => toggle_edge(s.pressed, p, key),
        KeyEvent::Released(_) => false,
    }
}

/// One step of the activation machine under profile `p`.
pub open spec fn machine_step(s: MachineState, p: ProfileView, ev: KeyEvent) -> MachineState {
    match ev {
        KeyEvent::Pressed(key) => {
            if p.toggle {
                MachineState {
                    pressed: toggle_pressed_update(s.pressed, key, p.repeat_key),
                    running: if toggle_edge(s.pressed, p, key) {
                        !s.running
                    } else {
                        s.running
                    },
                }
            } else {
                let pressed = s.pressed.insert(key);
                MachineState { pressed, running: hold_should_run(pressed, p) }
            }
        },
        KeyEvent::Released(key) => {
            let pressed = s.pressed.remove(key);
            if p.toggle {
                MachineState { pressed, running: s.running }
            } else {
                MachineState { pressed, running: hold_should_run(pressed, p) }
            }
        },
    }
}

/// The machine run over a whole event trace.
pub open spec fn machine_run(s: MachineState, p: ProfileView, evs: Seq<KeyEvent>) -> MachineState
    decreases evs.len(),
{
    if evs.len() == 0 {
        s
    } else {
        machine_run(machine_step(s, p, evs[0]), p, evs.drop_first())
    }
}

/// Law (toggle mode): a qualifying press edge flips clicking — immediately
/// after the edge-triggering press the scheduler runs exactly if it did not
/// run before.
pub proof fn lemma_toggle_edge_flips(s: MachineState, p: ProfileView, key: u16)
    requires
        p.toggle,
        toggle_edge(s.pressed, p, key),
    ensures
        machine_step(s, p, KeyEvent::Pressed(key)).running == !s.running,
{
}

/// Law (toggle mode): clicking persists until the next qualifying press
/// edge — a running machine fed any trace free of qualifying edges is still
/// running at its end; in particular releases alone never stop it.
pub proof fn lemma_toggle_runs_until_next_edge(s: MachineState, p: ProfileView, evs: Seq<KeyEvent>)
    requires
        p.toggle,
        s.running,
        forall|k: int|
            0 <= k < evs.len() ==> !is_toggle_edge_event(
                machine_run(s, p, #[trigger] evs.take(k)),
                p,
                evs[k],
            ),
    ensures
        machine_run(s, p, evs).running,
    decreases evs.len(),
{
    if evs.len() > 0 {
        assert(evs.take(0) =~= Seq::<KeyEvent>::empty());
        assert(machine_run(s, p, evs.take(0)) == s);
        assert(!is_toggle_edge_event(s, p, evs[0]));
        let s1 = machine_step(s, p, evs[0]);
        assert(s1.running);
        let rest = evs.drop_first();
        assert forall|k: int|
            0 <= k < rest.len() implies !is_toggle_edge_event(
            machine_run(s1, p, #[trigger] rest.take(k)),
            p,
            rest[k],
        ) by {
            assert(evs.take(k + 1)[0] == evs[0]);
            assert(evs.take(k + 1).drop_first() =~= rest.take(k));
            assert(machine_run(s, p, evs.take(k + 1)) == machine_run(s1, p, rest.take(k)));
            assert(rest[k] == evs[k + 1]);
        }
        lemma_toggle_runs_until_next_edge(s1, p, rest);
        assert(machine_run(s, p, evs) == machine_run(s1, p, rest));
    }
}

/// Law (hold mode): after any processed event the scheduler runs exactly if
/// the repeat key is held and every activation key is held.
pub proof fn lemma_hold_running_iff(s: MachineState, p: ProfileView, ev: KeyEvent)
    requires
        !p.toggle,
    ensures
        machine_step(s, p, ev).running == hold_should_run(machine_step(s, p, ev).pressed, p),
{
}

/// Law (hold mode), over a whole trace: after at least one event the run
/// condition of the final held-key set decides exactly whether the
/// scheduler runs, wherever the machine started.
pub proof fn lemma_hold_running_iff_trace(s: MachineState, p: ProfileView, evs: Seq<KeyEvent>)
    requires
        !p.toggle,
        evs.len() >= 1,
    ensures
        machine_run(s, p, evs).running == hold_should_run(machine_run(s, p, evs).pressed, p),
    decreases evs.len(),
{
    let s1 = machine_step(s, p, evs[0]);
    if evs.len() == 1 {
        assert(machine_run(s1, p, evs.drop_first()) == s1);
    } else {
        lemma_hold_running_iff_trace(s1, p, evs.drop_first());
    }
}

} // verus!
