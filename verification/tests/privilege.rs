use rustybox::applets::applet_tables::SuidPolicy;
use rustybox::applets::privilege::{enforce, Credentials, PrivilegeAction};

fn creds(ruid: u32, euid: u32, rgid: u32, egid: u32) -> Credentials {
    Credentials { ruid, euid, rgid, egid }
}

#[test]
fn require_denies_without_root_rights() {
    assert_eq!(
        enforce(SuidPolicy::SUID_REQUIRE, creds(1000, 1000, 100, 100)),
        PrivilegeAction::Deny
    );
    assert_eq!(
        enforce(SuidPolicy::SUID_REQUIRE, creds(0, 1000, 0, 100)),
        PrivilegeAction::Deny
    );
}

#[test]
fn require_proceeds_with_root_rights() {
    assert_eq!(
        enforce(SuidPolicy::SUID_REQUIRE, creds(1000, 0, 100, 100)),
        PrivilegeAction::Proceed
    );
    assert_eq!(enforce(SuidPolicy::SUID_REQUIRE, creds(0, 0, 0, 0)), PrivilegeAction::Proceed);
}

#[test]
fn drop_gives_up_borrowed_rights() {
    assert_eq!(
        enforce(SuidPolicy::SUID_DROP, creds(1000, 0, 100, 100)),
        PrivilegeAction::DropTo { uid: 1000, gid: 100 }
    );
    assert_eq!(
        enforce(SuidPolicy::SUID_DROP, creds(1000, 1000, 100, 0)),
        PrivilegeAction::DropTo { uid: 1000, gid: 100 }
    );
    assert_eq!(
        enforce(SuidPolicy::SUID_DROP, creds(1000, 33, 100, 100)),
        PrivilegeAction::DropTo { uid: 1000, gid: 100 }
    );
}

#[test]
fn drop_has_nothing_to_do_without_borrowed_rights() {
    assert_eq!(
        enforce(SuidPolicy::SUID_DROP, creds(1000, 1000, 100, 100)),
        PrivilegeAction::Proceed
    );
    assert_eq!(enforce(SuidPolicy::SUID_DROP, creds(0, 0, 0, 0)), PrivilegeAction::Proceed);
}

#[test]
fn maybe_never_acts() {
    for c in [creds(1000, 1000, 100, 100), creds(1000, 0, 100, 0), creds(0, 0, 0, 0)] {
        assert_eq!(enforce(SuidPolicy::SUID_MAYBE, c), PrivilegeAction::Proceed);
    }
}

#[test]
fn credential_predicates() {
    assert!(creds(1000, 0, 100, 100).is_elevated());
    assert!(!creds(1000, 1000, 100, 100).is_elevated());
    assert!(creds(1000, 0, 100, 100).is_borrowed());
    assert!(creds(1000, 1000, 100, 5).is_borrowed());
    assert!(!creds(0, 0, 0, 0).is_borrowed());
}
