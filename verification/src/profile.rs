//! The clicking configuration: a named `Profile` with its activation keys and
//! its target click rate.
//!
//! Key codes are plain `u16` values, as an input backend reports them. Click
//! rates are whole clicks per second; a rate specification is either a
//! Gaussian descriptor (a target rate with a standard deviation) or a bounded
//! range, and a profile carries exactly one of the two.

use vstd::prelude::*;

verus! {

/// The target click-rate specification a profile carries.
///
/// `Gaussian` asks for a rate drawn around `target` with deviation `std_dev`
/// each window; `Range` asks for a rate drawn uniformly from `min..=max`.
/// All fields are whole clicks per second.
#[derive(Clone, Copy, Debug, PartialEq, Eq, Structural)]
pub enum Cps {
    Gaussian { target: u32, std_dev: u32 },
    Range { min: u32, max: u32 },
}

impl Cps {
    /// A rate specification a scheduler may be started with: the target and
    /// the deviation must be positive, and a range must be non-empty and not
    /// start at zero clicks per second.
    pub open spec fn valid(self) -> bool {
        match self {
            Cps::Gaussian { target, std_dev } => target >= 1 && std_dev >= 1,
            Cps::Range { min, max } => 1 <= min <= max,
        }
    }

    /// Runtime check for `valid`.
    pub fn is_valid(&self) -> (r: bool)
        ensures
            r == self.valid(),
    {
        match self {
            Cps::Gaussian { target, std_dev } => *target >= 1 && *std_dev >= 1,
            Cps::Range { min, max } => 1 <= *min && *min <= *max,
        }
    }
}

/// A named clicking configuration.
///
/// `activation_keys` must all be held to arm the behaviour; `repeat_key` is
/// the key whose press and release directly drive the scheduler once the
/// combination is satisfied. With `toggle` set, a press edge that completes
/// the combination flips clicking on or off; without it, clicking runs
/// exactly while the keys are physically held. `jitter` bounds the random
/// positional offset emitted beside each click, in device units per axis.
/// `hold_to_click` is carried configuration surface; the behaviour mode is
/// selected by `toggle`.
#[derive(Debug)]
pub struct Profile {
    pub name: String,
    pub activation_keys: Vec<u16>,
    pub repeat_key: u16,
    pub cps: Cps,
    pub toggle: bool,
    pub jitter: u16,
    pub hold_to_click: bool,
}

/// The mathematical value of a `Profile`: its strings and vectors replaced by
/// their sequences.
pub ghost struct ProfileView {
    pub name: Seq<char>,
    pub activation_keys: Seq<u16>,
    pub repeat_key: u16,
    pub cps: Cps,
    pub toggle: bool,
    pub jitter: u16,
    pub hold_to_click: bool,
}

impl View for Profile {
    type V = ProfileView;

    open spec fn view(&self) -> ProfileView {
        ProfileView {
            name: self.name@,
            activation_keys: self.activation_keys@,
            repeat_key: self.repeat_key,
            cps: self.cps,
            toggle: self.toggle,
            jitter: self.jitter,
            hold_to_click: self.hold_to_click,
        }
    }
}

impl Profile {
    /// A fresh profile with the given identity and rate, carrying the default
    /// mode flags and no positional jitter.
    pub fn new(name: String, activation_keys: Vec<u16>, repeat_key: u16, cps: Cps) -> (r: Profile)
        ensures
            r@.name == name@,
            r@.activation_keys == activation_keys@,
            r@.repeat_key == repeat_key,
            r@.cps == cps,
            r@.toggle == true,
            r@.jitter == 0,
            r@.hold_to_click == true,
    {
        Profile {
            name,
            activation_keys,
            repeat_key,
            cps,
            toggle: default_toggle(),
            jitter: 0,
            hold_to_click: default_hold_to_click(),
        }
    }

    /// A structurally identical copy of this profile.
    pub fn duplicate(&self) -> (r: Profile)
        ensures
            r@ == self@,
    {
        let name = self.name.clone();
        let keys = clone_keys(&self.activation_keys);
        Profile {
            name,
            activation_keys: keys,
            repeat_key: self.repeat_key,
            cps: self.cps,
            toggle: self.toggle,
            jitter: self.jitter,
            hold_to_click: self.hold_to_click,
        }
    }
}

/// A fresh vector holding the same key codes.
fn clone_keys(keys: &Vec<u16>) -> (r: Vec<u16>)
    ensures
        r@ == keys@,
{
    let mut out: Vec<u16> = Vec::new();
    let mut i: usize = 0;
    while i < keys.len()
        invariant
            i <= keys.len(),
            out@ == keys@.take(i as int),
        decreases keys.len() - i,
    {
        out.push(keys[i]);
        proof {
            assert(out@ == keys@.take(i + 1 as int));
        }
        i = i + 1;
    }
    proof {
        assert(keys@.take(keys@.len() as int) == keys@);
    }
    out
}

/// Default for a profile's `toggle` flag: combination edges flip clicking.
pub fn default_toggle() -> (r: bool)
    ensures
        r == true,
{
    true
}

/// Default for a profile's `hold_to_click` flag.
pub fn default_hold_to_click() -> (r: bool)
    ensures
        r == true,
{
    true
}

/// Default repeat key: the left mouse button's key code.
pub fn default_repeat_key() -> (r: u16)
    ensures
        r == 272,
{
    272
}

/// Default deviation for a Gaussian rate, in whole clicks per second.
pub fn default_std_dev() -> (r: u32)
    ensures
        r == 2,
{
    2
}

} // verus!
