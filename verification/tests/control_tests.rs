use wl_clicker::control::{request_for, Cli, IpcRequest, IpcResponse};
use wl_clicker::profile::{Cps, Profile};
use wl_clicker::runtime::RuntimeState;

fn named_profile(name: &str, min: u32, max: u32) -> Profile {
    Profile::new(String::from(name), vec![30], 30, Cps::Range { min, max })
}

fn store() -> RuntimeState {
    RuntimeState::new(vec![
        named_profile("default", 5, 5),
        named_profile("fast", 10, 14),
    ])
}

#[test]
fn switch_to_missing_profile_errors_and_changes_nothing() {
    // SwitchProfile("missing"): the response names the missing profile and
    // the active profile is unchanged.
    let mut rs = store();
    let resp = rs.handle_request(IpcRequest::SwitchProfile {
        name: String::from("missing"),
    });
    match resp {
        IpcResponse::Error(msg) => assert_eq!(msg, "Profile `missing` doesn't exist"),
        _ => panic!("a missing profile must be an error"),
    }
    assert!(rs.current_profile.is_none());
}

#[test]
fn switch_to_known_profile_succeeds() {
    let mut rs = store();
    let resp = rs.handle_request(IpcRequest::SwitchProfile {
        name: String::from("fast"),
    });
    assert!(matches!(resp, IpcResponse::Accepted));
    assert_eq!(rs.current_profile.as_ref().unwrap().name, "fast");
}

#[test]
fn switch_does_not_stop_a_running_scheduler() {
    let mut rs = store();
    rs.current_profile = Some(named_profile("default", 5, 5));
    let p = named_profile("default", 5, 5);
    rs.scheduler.start(&p).unwrap();
    assert!(rs.scheduler.is_running());
    let resp = rs.handle_request(IpcRequest::SwitchProfile {
        name: String::from("fast"),
    });
    assert!(matches!(resp, IpcResponse::Accepted));
    assert!(rs.scheduler.is_running());
    assert_eq!(rs.current_profile.as_ref().unwrap().name, "fast");
}

#[test]
fn current_profile_without_selection_is_an_error() {
    let mut rs = store();
    let resp = rs.handle_request(IpcRequest::GetCurrentProfile);
    match resp {
        IpcResponse::Error(msg) => assert_eq!(msg, "No profile selected"),
        _ => panic!("no selection must be an error"),
    }
}

#[test]
fn current_profile_after_switch_is_returned() {
    let mut rs = store();
    rs.handle_request(IpcRequest::SwitchProfile {
        name: String::from("default"),
    });
    let resp = rs.handle_request(IpcRequest::GetCurrentProfile);
    match resp {
        IpcResponse::Profile(p) => {
            assert_eq!(p.name, "default");
            assert_eq!(p.cps, Cps::Range { min: 5, max: 5 });
        }
        _ => panic!("a selected profile must be returned"),
    }
}

#[test]
fn get_profile_finds_by_name_or_errors() {
    let mut rs = store();
    let resp = rs.handle_request(IpcRequest::GetProfile {
        name: String::from("fast"),
    });
    match resp {
        IpcResponse::Profile(p) => {
            assert_eq!(p.name, "fast");
            assert_eq!(p.cps, Cps::Range { min: 10, max: 14 });
        }
        _ => panic!("a known profile must be returned"),
    }
    let resp = rs.handle_request(IpcRequest::GetProfile {
        name: String::from("nope"),
    });
    match resp {
        IpcResponse::Error(msg) => assert_eq!(msg, "Profile `nope` doesn't exist"),
        _ => panic!("an unknown profile must be an error"),
    }
}

#[test]
fn get_all_profiles_returns_the_whole_store() {
    let mut rs = store();
    let resp = rs.handle_request(IpcRequest::GetAllProfiles);
    match resp {
        IpcResponse::AllProfiles(ps) => {
            assert_eq!(ps.len(), 2);
            assert_eq!(ps[0].name, "default");
            assert_eq!(ps[1].name, "fast");
        }
        _ => panic!("the whole store must be returned"),
    }
}

#[test]
fn duplicate_names_resolve_to_the_first() {
    let mut rs = RuntimeState::new(vec![
        named_profile("twin", 2, 3),
        named_profile("twin", 8, 9),
    ]);
    let resp = rs.handle_request(IpcRequest::GetProfile {
        name: String::from("twin"),
    });
    match resp {
        IpcResponse::Profile(p) => assert_eq!(p.cps, Cps::Range { min: 2, max: 3 }),
        _ => panic!("the first twin must be returned"),
    }
}

#[test]
fn clearing_held_keys_touches_nothing_else() {
    let mut rs = store();
    rs.handle_request(IpcRequest::SwitchProfile {
        name: String::from("default"),
    });
    rs.pressed_keys.push(30);
    rs.pressed_keys.push(48);
    rs.clear_pressed_keys();
    assert!(rs.pressed_keys.is_empty());
    assert_eq!(rs.current_profile.as_ref().unwrap().name, "default");
    assert_eq!(rs.profiles.len(), 2);
}

#[test]
fn cli_commands_map_to_their_requests() {
    assert!(matches!(
        request_for(Cli::Profiles),
        IpcRequest::GetAllProfiles
    ));
    assert!(matches!(
        request_for(Cli::Current),
        IpcRequest::GetCurrentProfile
    ));
    match request_for(Cli::Show {
        name: String::from("a"),
    }) {
        IpcRequest::GetProfile { name } => assert_eq!(name, "a"),
        _ => panic!("Show must ask for one profile"),
    }
    match request_for(Cli::Select {
        name: String::from("b"),
    }) {
        IpcRequest::SwitchProfile { name } => assert_eq!(name, "b"),
        _ => panic!("Select must switch"),
    }
}
