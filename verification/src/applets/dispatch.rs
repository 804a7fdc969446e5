//! The course of one invocation, as a state machine.
//!
//! The machine decides; the caller acts. In each state one action is
//! pending. The caller carries it out and reports what came of it as an
//! event, which takes the machine to its next state:
//!
//! ```text
//! Start --resolve--> Found | NotFound
//! Found --credentials--> Authorized | Dropping | Denied
//! Dropping --drop done--> Authorized | DropFailed
//! Authorized --entry point returned--> Terminated
//! ```
//!
//! `NotFound`, `Denied`, `DropFailed` and `Terminated` are final. The entry
//! point of an applet is called in `Authorized` and nowhere else.

use vstd::prelude::*;
use vstd::string::*;
use crate::applets::applet_tables::{AppletView, Entrypoint, SuidPolicy};
use crate::applets::invocation::{
    basename, select, selection, strings, Selection, SelectionView,
};
use crate::applets::privilege::{enforce, required_action, Credentials, PrivilegeAction};
use crate::applets::registry::{has_name, names_ascending, Registry};

verus! {

/// Exit status of an applet that succeeded.
pub const EXIT_SUCCESS: i32 = 0;

/// Exit status where no applet of the given name exists.
pub const EXIT_NOT_FOUND: i32 = 127;

/// Exit status where an applet that requires root rights is invoked without
/// them.
pub const EXIT_DENIED: i32 = 126;

/// Exit status where borrowed rights could not be given up.
pub const EXIT_DROP_FAILED: i32 = 125;

/// Where an invocation stands.
#[derive(Copy, Clone, Debug, PartialEq, Eq, Structural)]
pub enum State {
    /// Nothing has happened yet.
    Start,
    /// The name resolved to the applet in row `index`.
    Found { index: usize, policy: SuidPolicy, entrypoint: Entrypoint },
    /// The name resolved to nothing. Final.
    NotFound,
    /// The applet may run once the effective ids are those of `creds`.
    Dropping { index: usize, entrypoint: Entrypoint, creds: Credentials },
    /// The applet may run; `creds` are the credentials it is entered with.
    Authorized { index: usize, entrypoint: Entrypoint, creds: Credentials },
    /// The applet requires root rights that the process lacks. Final.
    Denied,
    /// The borrowed rights could not be given up. Final.
    DropFailed,
    /// The applet ran and returned `status`. Final.
    Terminated { status: i32 },
}

/// What the caller reports to the machine.
#[derive(Copy, Clone, Debug, PartialEq, Eq, Structural)]
pub enum Event {
    /// The name resolved to the applet in row `index`.
    Resolved { index: usize, policy: SuidPolicy, entrypoint: Entrypoint },
    /// The name resolved to nothing.
    Unresolved,
    /// The credentials of the process.
    Credentials(Credentials),
    /// The attempt to give up borrowed rights is over; `true` if it
    /// succeeded.
    Dropped(bool),
    /// The entry point returned this status.
    Returned(i32),
}

/// What the machine asks of the caller.
#[derive(Copy, Clone, Debug, PartialEq, Eq, Structural)]
pub enum Action {
    /// Resolve the name and report `Resolved` or `Unresolved`.
    Resolve,
    /// Report the credentials of the process.
    ReadCredentials,
    /// Set the effective ids to these, for good, and report `Dropped`.
    DropPrivileges { uid: libc::uid_t, gid: libc::gid_t },
    /// Call the entry point of the applet in row `index`. Report `Returned`
    /// if it returns.
    Invoke { index: usize, entrypoint: Entrypoint },
    /// End the process with this status.
    Exit { status: i32 },
}

impl State {
    /// The state is final: no event changes it.
    pub open spec fn is_final(self) -> bool {
        self is NotFound || self is Denied || self is DropFailed || self is Terminated
    }

    /// The action pending in the state.
    pub open spec fn pending(self) -> Action {
        match self {
            State::Start => Action::Resolve,
            State::Found { .. } => Action::ReadCredentials,
            State::NotFound => Action::Exit { status: EXIT_NOT_FOUND },
            State::Dropping { creds, .. } => Action::DropPrivileges {
                uid: creds.euid,
                gid: creds.egid,
            },
            State::Authorized { index, entrypoint, .. } => Action::Invoke { index, entrypoint },
            State::Denied => Action::Exit { status: EXIT_DENIED },
            State::DropFailed => Action::Exit { status: EXIT_DROP_FAILED },
            State::Terminated { status } => Action::Exit { status },
        }
    }

    /// The state that `event` leads to. An event that the state does not wait
    /// for leaves it as it is.
    pub open spec fn next(self, event: Event) -> State {
        match (self, event) {
            (State::Start, Event::Resolved { index, policy, entrypoint }) => State::Found {
                index,
                policy,
                entrypoint,
            },
            (State::Start, Event::Unresolved) => State::NotFound,
            (State::Found { index, policy, entrypoint }, Event::Credentials(creds)) => {
                match required_action(policy, creds) {
                    PrivilegeAction::Proceed => State::Authorized { index, entrypoint, creds },
                    PrivilegeAction::DropTo { .. } => State::Dropping {
                        index,
                        entrypoint,
                        creds: creds.dropped(),
                    },
                    PrivilegeAction::Deny => State::Denied,
                }
            },
            (State::Dropping { index, entrypoint, creds }, Event::Dropped(done)) => {
                if done {
                    State::Authorized { index, entrypoint, creds }
                } else {
                    State::DropFailed
                }
            },
            (
                State::Authorized { entrypoint: Entrypoint::CStyle, .. },
                Event::Returned(status),
            ) => State::Terminated { status },
            _ => self,
        }
    }

    /// The state after a series of events.
    pub open spec fn run(self, events: Seq<Event>) -> State
        decreases events.len(),
    {
        if events.len() == 0 {
            self
        } else {
            self.next(events[0]).run(events.drop_first())
        }
    }

    /// What is printed beside the exit status where the invocation failed
    /// for `name`; nothing in the other states.
    pub open spec fn complaint(self, name: Seq<char>) -> Option<Seq<char>> {
        match self {
            State::NotFound => Some(name + ": applet not found"@),
            State::Denied => Some(name + ": must be suid to work properly"@),
            State::DropFailed => Some(name + ": cannot give up privileges"@),
            _ => None,
        }
    }

    /// The state in which every invocation begins.
    pub fn start() -> (s: State)
        ensures
            s == State::Start,
    {
        State::Start
    }

    /// Whether the state is final.
    pub fn finished(&self) -> (r: bool)
        ensures
            r == self.is_final(),
    {
        match self {
            State::NotFound | State::Denied | State::DropFailed | State::Terminated { .. } => true,
            _ => false,
        }
    }

    /// The action pending in the state.
    pub fn action(&self) -> (a: Action)
        ensures
            a == self.pending(),
    {
        match *self {
            State::Start => Action::Resolve,
            State::Found { .. } => Action::ReadCredentials,
            State::NotFound => Action::Exit { status: EXIT_NOT_FOUND },
            State::Dropping { creds, .. } => Action::DropPrivileges {
                uid: creds.euid,
                gid: creds.egid,
            },
            State::Authorized { index, entrypoint, .. } => Action::Invoke { index, entrypoint },
            State::Denied => Action::Exit { status: EXIT_DENIED },
            State::DropFailed => Action::Exit { status: EXIT_DROP_FAILED },
            State::Terminated { status } => Action::Exit { status },
        }
    }

    /// The message for the user where the invocation of `name` failed.
    pub fn message(&self, name: &str) -> (text: Option<String>)
        ensures
            text is Some <==> self.complaint(name@) is Some,
            text matches Some(t) ==> self.complaint(name@) == Some(t@),
    {
        match self {
            State::NotFound => Some(name.to_owned().concat(": applet not found")),
            State::Denied => Some(name.to_owned().concat(": must be suid to work properly")),
            State::DropFailed => Some(name.to_owned().concat(": cannot give up privileges")),
            _ => None,
        }
    }

    /// Takes the machine from this state to the next.
    pub fn step(self, event: Event) -> (s: State)
        ensures
            s == self.next(event),
    {
        match self {
            State::Start => match event {
                Event::Resolved { index, policy, entrypoint } => State::Found {
                    index,
                    policy,
                    entrypoint,
                },
                Event::Unresolved => State::NotFound,
                _ => self,
            },
            State::Found { index, policy, entrypoint } => match event {
                Event::Credentials(creds) => match enforce(policy, creds) {
                    PrivilegeAction::Proceed => State::Authorized { index, entrypoint, creds },
                    PrivilegeAction::DropTo { uid, gid } => State::Dropping {
                        index,
                        entrypoint,
                        creds: Credentials {
                            ruid: creds.ruid,
                            euid: uid,
                            rgid: creds.rgid,
                            egid: gid,
                        },
                    },
                    PrivilegeAction::Deny => State::Denied,
                },
                _ => self,
            },
            State::Dropping { index, entrypoint, creds } => match event {
                Event::Dropped(true) => State::Authorized { index, entrypoint, creds },
                Event::Dropped(false) => State::DropFailed,
                _ => self,
            },
            State::Authorized { entrypoint: Entrypoint::CStyle, .. } => match event {
                Event::Returned(status) => State::Terminated { status },
                _ => self,
            },
            _ => self,
        }
    }
}

/// The statuses of the three failures are fixed, differ from one another
/// and are none of them the status of success.
pub proof fn lemma_failure_statuses()
    ensures
        EXIT_NOT_FOUND != EXIT_SUCCESS,
        EXIT_DENIED != EXIT_SUCCESS,
        EXIT_DROP_FAILED != EXIT_SUCCESS,
        EXIT_NOT_FOUND != EXIT_DENIED,
        EXIT_NOT_FOUND != EXIT_DROP_FAILED,
        EXIT_DENIED != EXIT_DROP_FAILED,
{
}

/// A final state stays what it is, whatever is reported to it.
pub proof fn lemma_final_stays(state: State, events: Seq<Event>)
    requires
        state.is_final(),
    ensures
        state.run(events) == state,
    decreases events.len(),
{
    if events.len() > 0 {
        lemma_final_stays(state, events.drop_first());
    }
}

/// The entry point is called in `Authorized` and in no other state, and a
/// step leads there only from `Found`, where the policy asks for nothing
/// more, or from `Dropping`, once the rights are given up.
pub proof fn lemma_invoke_needs_authority(state: State, event: Event)
    ensures
        (state.pending() is Invoke) <==> (state is Authorized),
        (state.next(event) is Authorized) ==> (state is Authorized) || (state is Found
            && event is Credentials && required_action(state->policy, event->Credentials_0)
            == PrivilegeAction::Proceed) || (state is Dropping && event == Event::Dropped(true)),
{
}

/// An applet that requires root rights, invoked by a process that lacks
/// them: from `found` the machine goes to `Denied` and asks for the exit
/// status `EXIT_DENIED`. Whatever follows, it never asks for the entry
/// point.
pub proof fn lemma_require_without_rights(found: State, creds: Credentials, later: Seq<Event>)
    requires
        (found is Found),
        found->policy == SuidPolicy::SUID_REQUIRE,
        !creds.elevated(),
    ensures
        found.next(Event::Credentials(creds)) == State::Denied,
        found.next(Event::Credentials(creds)).run(later) == State::Denied,
        !(found.next(Event::Credentials(creds)).run(later).pending() is Invoke),
        State::Denied.pending() == (Action::Exit { status: EXIT_DENIED }),
{
    lemma_final_stays(State::Denied, later);
}

/// An applet that gives up borrowed rights, invoked by a process that holds
/// some: from `found` the machine goes to `Dropping` and asks for the
/// effective ids to be set to the real ones. The entry point is asked for
/// only once that is done, and is then entered with the real ids. Where it
/// cannot be done, the machine goes to `DropFailed`, asks for the exit
/// status `EXIT_DROP_FAILED`, and never asks for the entry point.
pub proof fn lemma_drop_before_entry(found: State, creds: Credentials, later: Seq<Event>)
    requires
        (found is Found),
        found->policy == SuidPolicy::SUID_DROP,
        creds.borrowed(),
    ensures
        (found.next(Event::Credentials(creds)) is Dropping),
        found.next(Event::Credentials(creds)).pending() == (Action::DropPrivileges {
            uid: creds.ruid,
            gid: creds.rgid,
        }),
        (found.next(Event::Credentials(creds)).next(Event::Dropped(true)) is Authorized),
        found.next(Event::Credentials(creds)).next(Event::Dropped(true))->Authorized_creds
            == creds.dropped(),
        found.next(Event::Credentials(creds)).next(Event::Dropped(true))->Authorized_index
            == found->Found_index,
        found.next(Event::Credentials(creds)).next(Event::Dropped(false)) == State::DropFailed,
        found.next(Event::Credentials(creds)).next(Event::Dropped(false)).run(later)
            == State::DropFailed,
        State::DropFailed.pending() == (Action::Exit { status: EXIT_DROP_FAILED }),
{
    lemma_final_stays(State::DropFailed, later);
}

/// However the machine gets from `found` to `Authorized` in up to two
/// steps, the first of which reports the credentials, an applet that gives
/// up borrowed rights is entered with its effective ids equal to its real
/// ones. Unless root itself started the process, it is entered without the
/// rights of root.
pub proof fn lemma_drop_enters_with_real_ids(
    found: State,
    creds: Credentials,
    second: Event,
    reached: State,
)
    requires
        (found is Found),
        found->policy == SuidPolicy::SUID_DROP,
        reached == found.next(Event::Credentials(creds)).next(second),
        (reached is Authorized),
    ensures
        reached->Authorized_creds == creds.dropped(),
        !reached->Authorized_creds.borrowed(),
        creds.ruid != 0 ==> !reached->Authorized_creds.elevated(),
{
}

/// An invocation that names no applet: the machine goes from `Start` to
/// `NotFound` and asks for the exit status `EXIT_NOT_FOUND`. Whatever
/// follows, it never asks for an entry point.
pub proof fn lemma_unknown_name(
    rows: Seq<AppletView>,
    argv0: Seq<char>,
    args: Seq<Seq<char>>,
    later: Seq<Event>,
)
    requires
        !has_name(rows, basename(argv0)),
        args.len() > 0 ==> !has_name(rows, args[0]),
    ensures
        (selection(rows, argv0, args) is NotFound),
        State::Start.next(resolution(rows, selection(rows, argv0, args))) == State::NotFound,
        State::Start.next(resolution(rows, selection(rows, argv0, args))).run(later)
            == State::NotFound,
        State::NotFound.pending() == (Action::Exit { status: EXIT_NOT_FOUND }),
{
    lemma_final_stays(State::NotFound, later);
}

/// An invocation that names an applet, by its last path segment or else by
/// its first argument: the machine goes from `Start` to `Found` with the
/// row that carries the name. The argument vector begins with that name,
/// and what follows it are the arguments behind the name.
pub proof fn lemma_known_name(
    rows: Seq<AppletView>,
    argv0: Seq<char>,
    args: Seq<Seq<char>>,
    chosen: SelectionView,
    found: State,
)
    requires
        names_ascending(rows),
        rows.len() <= usize::MAX,
        has_name(rows, basename(argv0)) || (args.len() > 0 && has_name(rows, args[0])),
        chosen == selection(rows, argv0, args),
        found == State::Start.next(resolution(rows, chosen)),
    ensures
        (chosen is Found),
        0 <= chosen->index < rows.len(),
        chosen->argv.len() > 0,
        rows[chosen->index].name == chosen->argv[0],
        has_name(rows, basename(argv0)) ==> chosen->argv == seq![basename(argv0)] + args,
        !has_name(rows, basename(argv0)) ==> chosen->argv == args,
        (found is Found),
        found->Found_index == chosen->index,
        found->policy == rows[chosen->index].suid_policy,
        found->Found_entrypoint == rows[chosen->index].entrypoint,
{
    let own = basename(argv0);
    if has_name(rows, own) {
        assert(args.subrange(0, args.len() as int) =~= args);
    } else {
        assert(seq![args[0]] + args.subrange(1, args.len() as int) =~= args);
    }
}

/// The event that reports a selection made in a table `rows`.
pub open spec fn resolution(rows: Seq<AppletView>, chosen: SelectionView) -> Event {
    match chosen {
        SelectionView::Found { index, .. } => if 0 <= index < rows.len() && index <= usize::MAX {
            Event::Resolved {
                index: index as usize,
                policy: rows[index].suid_policy,
                entrypoint: rows[index].entrypoint,
            }
        } else {
            Event::Unresolved
        },
        SelectionView::NotFound { .. } => Event::Unresolved,
    }
}

/// The event that reports a selection to the machine: the row that was
/// found, with the policy and the kind of entry point that the registry
/// records for it.
pub fn resolved(registry: &Registry, chosen: &Selection) -> (e: Event)
    ensures
        e == resolution(registry@, chosen@),
{
    match chosen {
        Selection::Found { index, .. } => {
            let rows = registry.all_applets();
            if *index < rows.len() {
                assert(registry@[*index as int] == rows@[*index as int]@);
                Event::Resolved {
                    index: *index,
                    policy: rows[*index].suid_policy,
                    entrypoint: rows[*index].entrypoint,
                }
            } else {
                Event::Unresolved
            }
        },
        Selection::NotFound { .. } => Event::Unresolved,
    }
}

/// Resolves an invocation and takes the machine from `Start` to `Found` or
/// `NotFound`. The selection holds the argument vector for the applet, or
/// the name to report.
pub fn begin(registry: &Registry, argv0: &str, args: &Vec<String>) -> (r: (State, Selection))
    ensures
        r.1@ == selection(registry@, argv0@, strings(args@)),
        r.0 == State::Start.next(resolution(registry@, r.1@)),
        r.1 is Found <==> r.0 is Found,
        r.1 is NotFound <==> r.0 is NotFound,
{
    let chosen = select(registry, argv0, args);
    let event = resolved(registry, &chosen);
    let state = State::start().step(event);
    (state, chosen)
}

} // verus!
