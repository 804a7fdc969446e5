//! The privilege policy: what must happen to the process's credentials before
//! an applet may run.
//!
//! The decision is made here; changing the credentials of the process is left
//! to the caller, who reports back whether it succeeded.

use vstd::prelude::*;
use crate::applets::applet_tables::SuidPolicy;

verus! {

/// The user and group ids a process runs under.
#[derive(Copy, Clone, Debug, PartialEq, Eq, Structural)]
pub struct Credentials {
    /// Real user id: who started the process.
    pub ruid: libc::uid_t,
    /// Effective user id: whose rights the process has.
    pub euid: libc::uid_t,
    /// Real group id.
    pub rgid: libc::gid_t,
    /// Effective group id.
    pub egid: libc::gid_t,
}

/// What the policy asks for before the entry point is called.
#[derive(Copy, Clone, Debug, PartialEq, Eq, Structural)]
pub enum PrivilegeAction {
    /// Nothing: call the entry point.
    Proceed,
    /// Set the effective ids to these, for good, then call the entry point.
    /// Should that fail, the applet must not run.
    DropTo { uid: libc::uid_t, gid: libc::gid_t },
    /// Refuse: the entry point is not called.
    Deny,
}

impl Credentials {
    /// The process has the rights of root.
    pub open spec fn elevated(self) -> bool {
        self.euid == 0
    }

    /// The process has rights that its real ids do not give it, as a
    /// set-user-id or set-group-id binary has.
    pub open spec fn borrowed(self) -> bool {
        self.euid != self.ruid || self.egid != self.rgid
    }

    /// The credentials once the borrowed rights are given up: the effective
    /// ids are the real ones.
    pub open spec fn dropped(self) -> Credentials {
        Credentials { ruid: self.ruid, euid: self.ruid, rgid: self.rgid, egid: self.rgid }
    }

    /// Whether the process has the rights of root.
    pub fn is_elevated(&self) -> (r: bool)
        ensures
            r == self.elevated(),
    {
        self.euid == 0
    }

    /// Whether the process holds rights beyond those of its real ids.
    pub fn is_borrowed(&self) -> (r: bool)
        ensures
            r == self.borrowed(),
    {
        self.euid != self.ruid || self.egid != self.rgid
    }
}

/// The action that `policy` asks for under `creds`.
pub open spec fn required_action(policy: SuidPolicy, creds: Credentials) -> PrivilegeAction {
    match policy {
        SuidPolicy::SUID_REQUIRE => if creds.elevated() {
            PrivilegeAction::Proceed
        } else {
            PrivilegeAction::Deny
        },
        SuidPolicy::SUID_DROP => if creds.borrowed() {
            PrivilegeAction::DropTo { uid: creds.ruid, gid: creds.rgid }
        } else {
            PrivilegeAction::Proceed
        },
        SuidPolicy::SUID_MAYBE => PrivilegeAction::Proceed,
    }
}

/// The credentials the applet sees at its entry, once `action` has been
/// carried out; `None` where the applet is not entered.
pub open spec fn credentials_at_entry(creds: Credentials, action: PrivilegeAction) -> Option<
    Credentials,
> {
    match action {
        PrivilegeAction::Proceed => Some(creds),
        PrivilegeAction::DropTo { uid, gid } => Some(
            Credentials { ruid: creds.ruid, euid: uid, rgid: creds.rgid, egid: gid },
        ),
        PrivilegeAction::Deny => None,
    }
}

/// Decides what the policy of an applet asks for under the credentials of
/// the process.
pub fn enforce(policy: SuidPolicy, creds: Credentials) -> (action: PrivilegeAction)
    ensures
        action == required_action(policy, creds),
{
    match policy {
        SuidPolicy::SUID_REQUIRE => {
            if creds.is_elevated() {
                PrivilegeAction::Proceed
            } else {
                PrivilegeAction::Deny
            }
        },
        SuidPolicy::SUID_DROP => {
            if creds.is_borrowed() {
                PrivilegeAction::DropTo { uid: creds.ruid, gid: creds.rgid }
            } else {
                PrivilegeAction::Proceed
            }
        },
        SuidPolicy::SUID_MAYBE => PrivilegeAction::Proceed,
    }
}

/// An applet that requires root rights is refused exactly when the process
/// lacks them.
pub proof fn lemma_require_denies(creds: Credentials)
    ensures
        required_action(SuidPolicy::SUID_REQUIRE, creds) == PrivilegeAction::Deny
            <==> !creds.elevated(),
{
}

/// An applet that gives up borrowed rights is entered with its effective ids
/// equal to its real ones. Unless root itself started the process, it is
/// entered without the rights of root.
pub proof fn lemma_drop_enters_unprivileged(creds: Credentials)
    ensures
        credentials_at_entry(creds, required_action(SuidPolicy::SUID_DROP, creds)) == Some(
            creds.dropped(),
        ),
        !creds.dropped().borrowed(),
        creds.ruid != 0 ==> !creds.dropped().elevated(),
{
}

/// An applet that copes with either kind of invocation is entered with the
/// credentials untouched.
pub proof fn lemma_maybe_leaves_credentials(creds: Credentials)
    ensures
        credentials_at_entry(creds, required_action(SuidPolicy::SUID_MAYBE, creds)) == Some(creds),
{
}

} // verus!
