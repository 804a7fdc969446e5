use rustybox::applets::applet_tables::{Entrypoint, SuidPolicy, BUILTIN_COUNT};
use rustybox::applets::dispatch::{
    begin, resolved, Action, Event, State, EXIT_DENIED, EXIT_DROP_FAILED, EXIT_NOT_FOUND,
    EXIT_SUCCESS,
};
use rustybox::applets::invocation::Selection;
use rustybox::applets::privilege::Credentials;
use rustybox::applets::registry::Registry;

fn builtin() -> Registry {
    let usage: Vec<&'static str> = vec![""; BUILTIN_COUNT];
    Registry::builtin(&usage).unwrap()
}

fn strings(items: &[&str]) -> Vec<String> {
    items.iter().map(|s| s.to_string()).collect()
}

fn user() -> Credentials {
    Credentials { ruid: 1000, euid: 1000, rgid: 100, egid: 100 }
}

fn setuid_root() -> Credentials {
    Credentials { ruid: 1000, euid: 0, rgid: 100, egid: 100 }
}

fn root() -> Credentials {
    Credentials { ruid: 0, euid: 0, rgid: 0, egid: 0 }
}

fn found(policy: SuidPolicy, entrypoint: Entrypoint) -> State {
    State::start().step(Event::Resolved { index: 7, policy, entrypoint })
}

#[test]
fn exit_statuses_are_fixed_and_distinct() {
    assert_eq!(EXIT_SUCCESS, 0);
    assert_eq!(EXIT_NOT_FOUND, 127);
    assert_eq!(EXIT_DENIED, 126);
    assert_eq!(EXIT_DROP_FAILED, 125);
}

#[test]
fn echo_hello_runs_echo() {
    let reg = builtin();
    let (state, chosen) = begin(&reg, "echo", &strings(&["hello"]));
    let echo = reg.position("echo").unwrap();
    match chosen {
        Selection::Found { index, argv } => {
            assert_eq!(index, echo);
            assert_eq!(argv, strings(&["echo", "hello"]));
        }
        Selection::NotFound { .. } => panic!("echo not found"),
    }
    assert_eq!(
        state,
        State::Found { index: echo, policy: SuidPolicy::SUID_DROP, entrypoint: Entrypoint::CStyle }
    );
    assert_eq!(state.action(), Action::ReadCredentials);
    let state = state.step(Event::Credentials(user()));
    assert_eq!(
        state,
        State::Authorized { index: echo, entrypoint: Entrypoint::CStyle, creds: user() }
    );
    assert_eq!(state.action(), Action::Invoke { index: echo, entrypoint: Entrypoint::CStyle });
    assert!(!state.finished());
    let state = state.step(Event::Returned(0));
    assert_eq!(state, State::Terminated { status: 0 });
    assert_eq!(state.action(), Action::Exit { status: EXIT_SUCCESS });
    assert!(state.finished());
    assert_eq!(state.message("echo"), None);
}

#[test]
fn unknown_command_is_reported() {
    let reg = builtin();
    let (state, chosen) = begin(&reg, "busybox", &strings(&["nosuchcmd"]));
    assert_eq!(state, State::NotFound);
    assert!(state.finished());
    assert_eq!(state.action(), Action::Exit { status: EXIT_NOT_FOUND });
    let name = match chosen {
        Selection::NotFound { name } => name,
        Selection::Found { .. } => panic!("found"),
    };
    assert_eq!(name, "nosuchcmd");
    assert_eq!(state.message(&name), Some("nosuchcmd: applet not found".to_string()));
    for e in [
        Event::Credentials(root()),
        Event::Dropped(true),
        Event::Returned(0),
        Event::Unresolved,
        Event::Resolved { index: 0, policy: SuidPolicy::SUID_MAYBE, entrypoint: Entrypoint::CStyle },
    ] {
        assert_eq!(state.step(e), State::NotFound);
    }
}

#[test]
fn ifup_and_ifdown_are_invoked_under_their_own_names() {
    let reg = builtin();
    for name in ["ifup", "ifdown"] {
        let (state, chosen) = begin(&reg, name, &strings(&["-a"]));
        let row = reg.position(name).unwrap();
        match chosen {
            Selection::Found { index, argv } => {
                assert_eq!(index, row);
                assert_eq!(argv[0], name);
                assert_eq!(argv, strings(&[name, "-a"]));
                assert_eq!(reg.all_applets()[index].main, "ifupdown");
            }
            Selection::NotFound { .. } => panic!("not found"),
        }
        let state = state.step(Event::Credentials(user()));
        assert_eq!(state.action(), Action::Invoke { index: row, entrypoint: Entrypoint::CStyle });
    }
}

#[test]
fn require_without_rights_is_denied_and_never_invoked() {
    let reg = builtin();
    let (state, _) = begin(&reg, "su", &strings(&[]));
    let state = state.step(Event::Credentials(user()));
    assert_eq!(state, State::Denied);
    assert_eq!(state.action(), Action::Exit { status: EXIT_DENIED });
    assert_eq!(state.message("su"), Some("su: must be suid to work properly".to_string()));
    for e in [Event::Dropped(true), Event::Returned(0), Event::Credentials(root())] {
        assert_eq!(state.step(e), State::Denied);
    }
}

#[test]
fn require_with_rights_is_invoked() {
    let reg = builtin();
    let (state, _) = begin(&reg, "busybox", &strings(&["passwd", "root"]));
    let row = reg.position("passwd").unwrap();
    let state = state.step(Event::Credentials(setuid_root()));
    assert_eq!(
        state,
        State::Authorized { index: row, entrypoint: Entrypoint::CStyle, creds: setuid_root() }
    );
    let state = state.step(Event::Returned(3));
    assert_eq!(state.action(), Action::Exit { status: 3 });
}

#[test]
fn drop_under_setuid_drops_before_entry() {
    let state = found(SuidPolicy::SUID_DROP, Entrypoint::CStyle);
    let state = state.step(Event::Credentials(setuid_root()));
    assert_eq!(state.action(), Action::DropPrivileges { uid: 1000, gid: 100 });
    assert!(!state.finished());
    let entered = state.step(Event::Dropped(true));
    assert_eq!(
        entered,
        State::Authorized { index: 7, entrypoint: Entrypoint::CStyle, creds: user() }
    );
    assert_eq!(entered.action(), Action::Invoke { index: 7, entrypoint: Entrypoint::CStyle });
}

#[test]
fn drop_failure_is_fatal() {
    let state = found(SuidPolicy::SUID_DROP, Entrypoint::CStyle);
    let state = state.step(Event::Credentials(setuid_root()));
    let failed = state.step(Event::Dropped(false));
    assert_eq!(failed, State::DropFailed);
    assert!(failed.finished());
    assert_eq!(failed.action(), Action::Exit { status: EXIT_DROP_FAILED });
    assert_eq!(failed.message("ls"), Some("ls: cannot give up privileges".to_string()));
    assert_eq!(failed.step(Event::Dropped(true)), State::DropFailed);
    assert_eq!(failed.step(Event::Returned(0)), State::DropFailed);
}

#[test]
fn drop_by_root_itself_enters_as_root() {
    let state = found(SuidPolicy::SUID_DROP, Entrypoint::CStyle);
    let state = state.step(Event::Credentials(root()));
    assert_eq!(
        state,
        State::Authorized { index: 7, entrypoint: Entrypoint::CStyle, creds: root() }
    );
}

#[test]
fn maybe_is_entered_as_invoked() {
    for c in [user(), setuid_root(), root()] {
        let state = found(SuidPolicy::SUID_MAYBE, Entrypoint::CStyle);
        let state = state.step(Event::Credentials(c));
        assert_eq!(
            state,
            State::Authorized { index: 7, entrypoint: Entrypoint::CStyle, creds: c }
        );
    }
}

#[test]
fn applet_status_is_passed_on() {
    for status in [0, 1, 2, 255, -1, i32::MAX, i32::MIN] {
        let state = found(SuidPolicy::SUID_MAYBE, Entrypoint::CStyle)
            .step(Event::Credentials(user()))
            .step(Event::Returned(status));
        assert_eq!(state, State::Terminated { status });
        assert_eq!(state.action(), Action::Exit { status });
    }
}

#[test]
fn never_returning_entry_point_has_no_status() {
    let reg = builtin();
    let (state, _) = begin(&reg, "true", &strings(&[]));
    let row = reg.position("true").unwrap();
    let state = state.step(Event::Credentials(user()));
    assert_eq!(state.action(), Action::Invoke { index: row, entrypoint: Entrypoint::SafeStyle });
    let after = state.step(Event::Returned(0));
    assert_eq!(after, state);
    assert!(!after.finished());
}

#[test]
fn events_out_of_turn_change_nothing() {
    let start = State::start();
    assert_eq!(start, State::Start);
    assert_eq!(start.action(), Action::Resolve);
    assert_eq!(start.step(Event::Credentials(user())), State::Start);
    assert_eq!(start.step(Event::Dropped(true)), State::Start);
    assert_eq!(start.step(Event::Returned(0)), State::Start);
    let f = found(SuidPolicy::SUID_REQUIRE, Entrypoint::CStyle);
    assert_eq!(f.step(Event::Returned(0)), f);
    assert_eq!(f.step(Event::Dropped(true)), f);
    assert_eq!(f.step(Event::Unresolved), f);
    let d = found(SuidPolicy::SUID_DROP, Entrypoint::CStyle).step(Event::Credentials(setuid_root()));
    assert_eq!(d.step(Event::Returned(0)), d);
    assert_eq!(d.step(Event::Credentials(root())), d);
    let t = State::Terminated { status: 5 };
    assert_eq!(t.step(Event::Returned(6)), t);
}

#[test]
fn resolved_reports_policy_and_entry_kind() {
    let reg = builtin();
    let su = reg.position("su").unwrap();
    let chosen = Selection::Found { index: su, argv: strings(&["su"]) };
    assert_eq!(
        resolved(&reg, &chosen),
        Event::Resolved { index: su, policy: SuidPolicy::SUID_REQUIRE, entrypoint: Entrypoint::CStyle }
    );
    let yes = reg.position("yes").unwrap();
    let chosen = Selection::Found { index: yes, argv: strings(&["yes"]) };
    assert_eq!(
        resolved(&reg, &chosen),
        Event::Resolved { index: yes, policy: SuidPolicy::SUID_DROP, entrypoint: Entrypoint::SafeStyle }
    );
    let outside = Selection::Found { index: BUILTIN_COUNT, argv: strings(&["x"]) };
    assert_eq!(resolved(&reg, &outside), Event::Unresolved);
    let none = Selection::NotFound { name: "x".to_string() };
    assert_eq!(resolved(&reg, &none), Event::Unresolved);
}
