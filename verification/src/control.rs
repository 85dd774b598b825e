//! The control plane's core: the requests an external client can make, the
//! responses the service gives, and the verified handling of both over the
//! runtime state.
//!
//! Profiles are looked up by name, first match winning. Switching the
//! active profile replaces it wholesale and never stops a running
//! scheduler; the next firing simply reads the new profile's rate. Every
//! error is a descriptive string, never a crash.

use crate::profile::Profile;
use crate::runtime::RuntimeState;
use vstd::prelude::*;
use vstd::string::StringExecFns;

verus! {

/// Marker for the client role of the control socket.
pub struct Client;

/// Marker for the server role of the control socket.
pub struct Server;

/// A request an external client can make.
#[derive(Debug)]
pub enum IpcRequest {
    SwitchProfile { name: String },
    GetProfile { name: String },
    GetCurrentProfile,
    GetAllProfiles,
}

/// The service's answer to a request.
#[derive(Debug)]
pub enum IpcResponse {
    Profile(Profile),
    AllProfiles(Vec<Profile>),
    Accepted,
    Error(String),
}

/// The command-line surface of the control client.
#[derive(Debug)]
pub enum Cli {
    /// List all available profiles.
    Profiles,
    /// Show details of a specific profile.
    Show { name: String },
    /// Switch to a different profile.
    Select { name: String },
    /// Show the currently active profile.
    Current,
}

/// The control client's parsed arguments: a command, and whether to print
/// JSON.
#[derive(Debug)]
pub struct Args {
    pub command: Cli,
    pub json: bool,
}

/// A reduced key binding summary: rate, mode and jitter.
#[derive(Clone, Copy, Debug, PartialEq, Eq, Structural)]
pub struct KeyConfig {
    pub cps: u32,
    pub toggle: bool,
    pub jitter: u32,
}

/// The message given for a profile name that exists in no loaded profile.
pub open spec fn profile_missing_msg(name: Seq<char>) -> Seq<char> {
    "Profile `"@ + name + "` doesn't exist"@
}

/// The message given when no profile is selected.
pub open spec fn no_profile_msg() -> Seq<char> {
    "No profile selected"@
}

/// The first loaded profile bearing `name`, if any.
pub open spec fn first_match(profiles: Seq<Profile>, name: Seq<char>) -> Option<Profile>
    decreases profiles.len(),
{
    if profiles.len() == 0 {
        None
    } else if profiles[0]@.name == name {
        Some(profiles[0])
    } else {
        first_match(profiles.drop_first(), name)
    }
}

/// A prefix free of `name` does not change the first match.
proof fn lemma_first_match_skip(profiles: Seq<Profile>, name: Seq<char>, i: int)
    requires
        0 <= i <= profiles.len(),
        forall|k: int| 0 <= k < i ==> (#[trigger] profiles[k])@.name != name,
    ensures
        first_match(profiles, name) == first_match(profiles.skip(i), name),
    decreases i,
{
    if i == 0 {
        assert(profiles.skip(0) =~= profiles);
    } else {
        assert(profiles[0]@.name != name);
        assert(profiles.drop_first() =~= profiles.skip(1));
        assert(forall|k: int|
            0 <= k < i - 1 ==> (#[trigger] profiles.skip(1)[k])@.name != name);
        lemma_first_match_skip(profiles.skip(1), name, i - 1);
        assert(profiles.skip(1).skip(i - 1) =~= profiles.skip(i));
    }
}

/// The index of the first loaded profile bearing `name`, if any.
fn find_profile_index(profiles: &Vec<Profile>, name: &String) -> (r: Option<usize>)
    ensures
        match r {
            Some(i) => i < profiles@.len() && first_match(profiles@, name@) == Some(
                profiles@[i as int],
            ),
            None => first_match(profiles@, name@) is None,
        },
{
    let mut i: usize = 0;
    while i < profiles.len()
        invariant
            i <= profiles@.len(),
            forall|k: int| 0 <= k < i ==> (#[trigger] profiles@[k])@.name != name@,
        decreases profiles@.len() - i,
    {
        if profiles[i].name.eq(name) {
            proof {
                lemma_first_match_skip(profiles@, name@, i as int);
                assert(profiles@.skip(i as int)[0] == profiles@[i as int]);
            }
            return Some(i);
        }
        i = i + 1;
    }
    proof {
        lemma_first_match_skip(profiles@, name@, profiles@.len() as int);
        assert(profiles@.skip(profiles@.len() as int).len() == 0);
    }
    None
}

/// The error string naming a missing profile.
fn missing_profile_message(name: &String) -> (r: String)
    ensures
        r@ == profile_missing_msg(name@),
{
    let head: String = String::from_str("Profile `");
    let with_name: String = head.concat(name.as_str());
    with_name.concat("` doesn't exist")
}

/// A structurally identical copy of each loaded profile.
fn duplicate_profiles(profiles: &Vec<Profile>) -> (r: Vec<Profile>)
    ensures
        r@.len() == profiles@.len(),
        forall|i: int| 0 <= i < r@.len() ==> (#[trigger] r@[i])@ == profiles@[i]@,
{
    let mut out: Vec<Profile> = Vec::new();
    let mut i: usize = 0;
    while i < profiles.len()
        invariant
            i <= profiles@.len(),
            out@.len() == i,
            forall|k: int| 0 <= k < i ==> (#[trigger] out@[k])@ == profiles@[k]@,
        decreases profiles@.len() - i,
    {
        out.push(profiles[i].duplicate());
        i = i + 1;
    }
    out
}

impl RuntimeState {
    /// Answer one control-plane request.
    ///
    /// Queries leave the state untouched and return the asked-for profiles
    /// or a descriptive error. A switch to a known name replaces the active
    /// profile wholesale — the held keys and a running scheduler are
    /// deliberately left alone, so clicking continues under the new
    /// profile's rate — and a switch to an unknown name changes nothing and
    /// names the missing profile in its error.
    pub fn handle_request(&mut self, req: IpcRequest) -> (resp: IpcResponse)
        ensures
            final(self).profiles == old(self).profiles,
            final(self).pressed_keys == old(self).pressed_keys,
            final(self).scheduler == old(self).scheduler,
            old(self).wf() ==> final(self).wf(),
            match req {
                IpcRequest::GetAllProfiles => final(self).current_profile == old(
                    self,
                ).current_profile && (resp matches IpcResponse::AllProfiles(ps)
                    && ps@.len() == old(self).profiles@.len() && (forall|i: int|
                    0 <= i < ps@.len() ==> (#[trigger] ps@[i])@ == old(self).profiles@[i]@)),
                IpcRequest::GetCurrentProfile => final(self).current_profile == old(
                    self,
                ).current_profile && match old(self).current_profile {
                    Some(cur) => resp matches IpcResponse::Profile(p) && p@ == cur@,
                    None => resp matches IpcResponse::Error(msg) && msg@ == no_profile_msg(),
                },
                IpcRequest::GetProfile { name } => final(self).current_profile == old(
                    self,
                ).current_profile && match first_match(old(self).profiles@, name@) {
                    Some(found) => resp matches IpcResponse::Profile(p) && p@ == found@,
                    None => resp matches IpcResponse::Error(msg) && msg@ == profile_missing_msg(
                        name@,
                    ),
                },
                IpcRequest::SwitchProfile { name } => match first_match(
                    old(self).profiles@,
                    name@,
                ) {
                    Some(found) => final(self).current_profile matches Some(p) && p@ == found@
                        && resp is Accepted,
                    None => final(self).current_profile == old(self).current_profile && (
                    resp matches IpcResponse::Error(msg) && msg@ == profile_missing_msg(name@)),
                },
            },
    {
        match req {
            IpcRequest::GetAllProfiles => IpcResponse::AllProfiles(
                duplicate_profiles(&self.profiles),
            ),
            IpcRequest::GetCurrentProfile => match &self.current_profile {
                Some(p) => IpcResponse::Profile(p.duplicate()),
                None => IpcResponse::Error(String::from_str("No profile selected")),
            },
            IpcRequest::GetProfile { name } => match find_profile_index(&self.profiles, &name) {
                Some(i) => IpcResponse::Profile(self.profiles[i].duplicate()),
                None => IpcResponse::Error(missing_profile_message(&name)),
            },
            IpcRequest::SwitchProfile { name } => match find_profile_index(&self.profiles, &name) {
                Some(i) => {
                    let chosen: Profile = self.profiles[i].duplicate();
                    self.current_profile = Some(chosen);
                    IpcResponse::Accepted
                },
                None => IpcResponse::Error(missing_profile_message(&name)),
            },
        }
    }
}

/// The request each control-client command stands for.
pub fn request_for(command: Cli) -> (r: IpcRequest)
    ensures
        match command {
            Cli::Profiles => r is GetAllProfiles,
            Cli::Show { name } => r matches IpcRequest::GetProfile { name: n } && n@ == name@,
            Cli::Select { name } => r matches IpcRequest::SwitchProfile { name: n } && n@
                == name@,
            Cli::Current => r is GetCurrentProfile,
        },
{
    match command {
        Cli::Profiles => IpcRequest::GetAllProfiles,
        Cli::Show { name } => IpcRequest::GetProfile { name },
        Cli::Select { name } => IpcRequest::SwitchProfile { name },
        Cli::Current => IpcRequest::GetCurrentProfile,
    }
}

} // verus!
