//! The process-wide runtime state and the executable activation state
//! machine.
//!
//! `RuntimeState` owns the loaded profiles, the active profile, the set of
//! physically held keys and the scheduler. `handle_key_event` is the
//! executable step of the activation machine: it is proved to follow the
//! mathematical step `activation::machine_step`, except that a profile whose
//! rate specification is invalid cannot start the scheduler — the start is
//! refused and clicking stays off, as the scheduler's own contract demands.

use crate::activation::{machine_step, combo_satisfied, MachineState, KeyEvent};
use crate::profile::Profile;
use crate::scheduler::Scheduler;
use vstd::prelude::*;
use vstd::seq_lib::lemma_seq_contains_after_push;

verus! {

/// What the event-loop driver must do to its timer registration after a key
/// event was processed.
#[derive(Clone, Copy, Debug, PartialEq, Eq, Structural)]
pub enum SchedulerCommand {
    /// Nothing changed.
    Keep,
    /// The scheduler started: register its timer.
    Start,
    /// The scheduler stopped: remove its timer registration.
    Stop,
}

/// Whether `key` occurs in `keys`.
fn contains_key(keys: &Vec<u16>, key: u16) -> (r: bool)
    ensures
        r == keys@.contains(key),
{
    let mut i: usize = 0;
    while i < keys.len()
        invariant
            i <= keys@.len(),
            forall|j: int| 0 <= j < i ==> keys@[j] != key,
        decreases keys@.len() - i,
    {
        if keys[i] == key {
            proof {
                assert(keys@[i as int] == key);
                assert(keys@.contains(key));
            }
            return true;
        }
        i = i + 1;
    }
    proof {
        assert(!keys@.contains(key)) by {
            if keys@.contains(key) {
                let j = choose|j: int| 0 <= j < keys@.len() && keys@[j] == key;
                assert(false);
            }
        }
    }
    false
}

/// Track a pressed key: added to the held set unless already there.
fn press_key(keys: &mut Vec<u16>, key: u16)
    requires
        old(keys)@.no_duplicates(),
    ensures
        final(keys)@.no_duplicates(),
        final(keys)@.to_set() == old(keys)@.to_set().insert(key),
{
    if !contains_key(keys, key) {
        proof {
            assert(keys@.push(key).no_duplicates()) by {
                assert forall|a: int, b: int|
                    0 <= a < keys@.push(key).len() && 0 <= b < keys@.push(key).len() && a
                        != b implies keys@.push(key)[a] != keys@.push(key)[b] by {
                    if a == keys@.len() || b == keys@.len() {
                        let c = if a == keys@.len() {
                            b
                        } else {
                            a
                        };
                        assert(keys@.push(key)[c] == keys@[c]);
                        if keys@[c] == key {
                            assert(keys@.contains(key));
                        }
                    }
                }
            }
            keys@.lemma_push_to_set_commute(key);
        }
        keys.push(key);
    } else {
        proof {
            assert(keys@.to_set().insert(key) =~= keys@.to_set());
        }
    }
}

/// Untrack a released key: every occurrence leaves the held set.
fn release_key(keys: &mut Vec<u16>, key: u16)
    requires
        old(keys)@.no_duplicates(),
    ensures
        final(keys)@.no_duplicates(),
        final(keys)@.to_set() == old(keys)@.to_set().remove(key),
{
    let mut out: Vec<u16> = Vec::new();
    let mut i: usize = 0;
    while i < keys.len()
        invariant
            i <= keys@.len(),
            keys@ == old(keys)@,
            keys@.no_duplicates(),
            out@.no_duplicates(),
            forall|x: u16| #[trigger]
                out@.contains(x) ==> x != key && exists|j: int| 0 <= j < i && keys@[j] == x,
            forall|j: int| 0 <= j < i && keys@[j] != key ==> out@.contains(#[trigger] keys@[j]),
        decreases keys@.len() - i,
    {
        let k: u16 = keys[i];
        if k != key {
            proof {
                broadcast use lemma_seq_contains_after_push;

                assert(!out@.contains(k)) by {
                    if out@.contains(k) {
                        let j = choose|j: int| 0 <= j < i && keys@[j] == k;
                        assert(keys@[j] == keys@[i as int]);
                        assert(false);
                    }
                }
                assert(out@.push(k).no_duplicates()) by {
                    assert forall|a: int, b: int|
                        0 <= a < out@.push(k).len() && 0 <= b < out@.push(k).len() && a
                            != b implies out@.push(k)[a] != out@.push(k)[b] by {
                        if a == out@.len() || b == out@.len() {
                            let c = if a == out@.len() {
                                b
                            } else {
                                a
                            };
                            assert(out@.push(k)[c] == out@[c]);
                            if out@[c] == k {
                                assert(out@.contains(k));
                            }
                        }
                    }
                }
                assert(keys@[i as int] == k);
            }
            out.push(k);
        }
        i = i + 1;
    }
    proof {
        assert forall|x: u16| #[trigger]
            out@.contains(x) == (keys@.contains(x) && x != key) by {
            if keys@.contains(x) && x != key {
                let j = choose|j: int| 0 <= j < keys@.len() && keys@[j] == x;
                assert(out@.contains(keys@[j]));
            }
            if out@.contains(x) {
                let j = choose|j: int| 0 <= j < i && keys@[j] == x;
                assert(keys@.contains(x));
            }
        }
        assert(out@.to_set() =~= keys@.to_set().remove(key));
    }
    *keys = out;
}

/// Whether every activation key of the profile is currently held.
fn combo_holds(pressed: &Vec<u16>, activation_keys: &Vec<u16>) -> (r: bool)
    ensures
        r == combo_satisfied(pressed@.to_set(), activation_keys@),
{
    let mut i: usize = 0;
    while i < activation_keys.len()
        invariant
            i <= activation_keys@.len(),
            forall|j: int|
                0 <= j < i ==> pressed@.to_set().contains(#[trigger] activation_keys@[j]),
        decreases activation_keys@.len() - i,
    {
        if !contains_key(pressed, activation_keys[i]) {
            proof {
                assert(!pressed@.to_set().contains(activation_keys@[i as int]));
            }
            return false;
        }
        i = i + 1;
    }
    true
}

/// The single-owner state of the whole service: the loaded profiles, the
/// active profile, the physically held keys, and the scheduler. The
/// scheduler's running state is the activation state; there is no separate
/// flag to fall out of step with it.
pub struct RuntimeState {
    pub profiles: Vec<Profile>,
    pub current_profile: Option<Profile>,
    pub pressed_keys: Vec<u16>,
    pub scheduler: Scheduler,
}

impl RuntimeState {
    /// The held-key list tracks a set, and the scheduler's window
    /// accounting is sound.
    pub open spec fn wf(self) -> bool {
        self.pressed_keys@.no_duplicates() && self.scheduler.wf()
    }

    /// The activation machine's mathematical state.
    pub open spec fn machine(self) -> MachineState {
        MachineState { pressed: self.pressed_keys@.to_set(), running: self.scheduler.running() }
    }

    /// A fresh runtime over the given profiles: no active profile, no held
    /// keys, the scheduler stopped.
    pub fn new(profiles: Vec<Profile>) -> (r: RuntimeState)
        ensures
            r.profiles == profiles,
            r.current_profile is None,
            r.pressed_keys@.len() == 0,
            !r.scheduler.running(),
            r.wf(),
    {
        RuntimeState {
            profiles,
            current_profile: None,
            pressed_keys: Vec::new(),
            scheduler: Scheduler::new(),
        }
    }

    /// Start the scheduler under profile `p` if `p`'s rate is valid, and
    /// say what happened.
    fn try_start(&mut self, p: &Profile) -> (cmd: SchedulerCommand)
        requires
            !old(self).scheduler.running(),
            old(self).scheduler.wf(),
        ensures
            final(self).profiles == old(self).profiles,
            final(self).current_profile == old(self).current_profile,
            final(self).pressed_keys == old(self).pressed_keys,
            final(self).scheduler.wf(),
            p.cps.valid() ==> final(self).scheduler.running() && cmd == SchedulerCommand::Start,
            !p.cps.valid() ==> final(self).scheduler == old(self).scheduler && cmd
                == SchedulerCommand::Keep,
    {
        match self.scheduler.start(p) {
            Ok(()) => SchedulerCommand::Start,
            Err(_) => SchedulerCommand::Keep,
        }
    }

    /// Re-evaluate the hold-mode run condition and start or stop the
    /// scheduler so that it runs exactly while the repeat key and every
    /// activation key are held (a start being refused for an invalid rate).
    fn sync_hold(&mut self, p: &Profile) -> (cmd: SchedulerCommand)
        requires
            old(self).scheduler.wf(),
        ensures
            final(self).profiles == old(self).profiles,
            final(self).current_profile == old(self).current_profile,
            final(self).pressed_keys == old(self).pressed_keys,
            final(self).scheduler.wf(),
            ({
                let should = crate::activation::hold_should_run(
                    old(self).pressed_keys@.to_set(),
                    p@,
                );
                &&& final(self).scheduler.running() == (should && (old(self).scheduler.running()
                    || p.cps.valid()))
                &&& (cmd == SchedulerCommand::Start <==> !old(self).scheduler.running()
                    && final(self).scheduler.running())
                &&& (cmd == SchedulerCommand::Stop <==> old(self).scheduler.running()
                    && !final(self).scheduler.running())
                &&& (cmd == SchedulerCommand::Keep ==> final(self).scheduler == old(self).scheduler)
            }),
    {
        let held_repeat: bool = contains_key(&self.pressed_keys, p.repeat_key);
        let combo: bool = combo_holds(&self.pressed_keys, &p.activation_keys);
        let should: bool = held_repeat && combo;
        let running: bool = self.scheduler.is_running();
        if should && !running {
            self.try_start(p)
        } else if !should && running {
            self.scheduler.stop();
            SchedulerCommand::Stop
        } else {
            SchedulerCommand::Keep
        }
    }

    /// Forget every held key. A profile switch by itself leaves the held
    /// keys alone — a combination satisfied under the old profile may then
    /// count as satisfied under the new one. A driver that prefers a clean
    /// slate calls this beside the switch.
    pub fn clear_pressed_keys(&mut self)
        ensures
            final(self).pressed_keys@.len() == 0,
            final(self).profiles == old(self).profiles,
            final(self).current_profile == old(self).current_profile,
            final(self).scheduler == old(self).scheduler,
            old(self).wf() ==> final(self).wf(),
    {
        self.pressed_keys = Vec::new();
    }

    /// Process one key event under the active profile.
    ///
    /// With no profile set the event is ignored entirely. Otherwise the
    /// held-key set and the scheduler follow the activation machine's step
    /// `machine_step`: every toggle-mode qualifying press edge flips clicking,
    /// and in hold mode clicking runs exactly while the repeat key and the
    /// activation combination are held — except that a profile with an
    /// invalid rate cannot start the scheduler. The returned command tells
    /// the driver whether to register or remove the click timer.
    pub fn handle_key_event(&mut self, ev: KeyEvent) -> (cmd: SchedulerCommand)
        requires
            old(self).wf(),
        ensures
            final(self).wf(),
            final(self).profiles == old(self).profiles,
            final(self).current_profile == old(self).current_profile,
            old(self).current_profile is None ==> *final(self) == *old(self) && cmd
                == SchedulerCommand::Keep,
            old(self).current_profile is Some ==> ({
                let p = old(self).current_profile->0@;
                let stepped = machine_step(old(self).machine(), p, ev);
                &&& final(self).machine().pressed == stepped.pressed
                &&& final(self).scheduler.running() == (stepped.running && (old(self).scheduler.running() || p.cps.valid()))
                &&& (p.cps.valid() ==> final(self).machine() == stepped)
                &&& (cmd == SchedulerCommand::Start <==> !old(self).scheduler.running() && final(self).scheduler.running())
                &&& (cmd == SchedulerCommand::Stop <==> old(self).scheduler.running() && !final(self).scheduler.running())
                &&& (cmd == SchedulerCommand::Keep ==> final(self).scheduler == old(self).scheduler)
            }),
    {
        let p: Profile = match &self.current_profile {
            None => {
                return SchedulerCommand::Keep;
            },
            Some(p) => p.duplicate(),
        };
        match ev {
            KeyEvent::Pressed(key) => {
                if p.toggle {
                    let combo_before: bool = combo_holds(&self.pressed_keys, &p.activation_keys);
                    let was_held: bool = contains_key(&self.pressed_keys, key);
                    if was_held {
                        if key == p.repeat_key {
                            release_key(&mut self.pressed_keys, key);
                        } else {
                            proof {
                                assert(self.pressed_keys@.to_set()
                                    == crate::activation::toggle_pressed_update(
                                    old(self).pressed_keys@.to_set(),
                                    key,
                                    p@.repeat_key,
                                ));
                            }
                        }
                    } else {
                        press_key(&mut self.pressed_keys, key);
                    }
                    let combo_after: bool = combo_holds(&self.pressed_keys, &p.activation_keys);
                    if !combo_before && combo_after {
                        if self.scheduler.is_running() {
                            self.scheduler.stop();
                            SchedulerCommand::Stop
                        } else {
                            self.try_start(&p)
                        }
                    } else {
                        SchedulerCommand::Keep
                    }
                } else {
                    press_key(&mut self.pressed_keys, key);
                    self.sync_hold(&p)
                }
            },
            KeyEvent::Released(key) => {
                release_key(&mut self.pressed_keys, key);
                if p.toggle {
                    SchedulerCommand::Keep
                } else {
                    self.sync_hold(&p)
                }
            },
        }
    }
}

} // verus!
