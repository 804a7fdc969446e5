//! From the way the binary was invoked to the applet that is meant.
//!
//! The applet is named by the last path segment of the invocation name or,
//! failing that, by the first argument.

use vstd::prelude::*;
use vstd::string::*;
use crate::applets::applet_tables::AppletView;
use crate::applets::registry::{has_name, lemma_name_unique, Registry};

verus! {

/// Where the last path segment of `path` begins: behind its last `/`, or at
/// 0 where it has none.
pub open spec fn basename_start(path: Seq<char>) -> int
    decreases path.len(),
{
    if path.len() == 0 {
        0
    } else if path.last() == '/' {
        path.len() as int
    } else {
        basename_start(path.drop_last())
    }
}

/// The last path segment of `path`: what follows its last `/`, or all of it
/// where it has none. Empty where the path ends in `/`.
pub open spec fn basename(path: Seq<char>) -> Seq<char> {
    path.subrange(basename_start(path), path.len() as int)
}

/// The contents of a list of strings.
pub open spec fn strings(list: Seq<String>) -> Seq<Seq<char>> {
    Seq::new(list.len(), |i: int| list[i]@)
}

/// The argument vector that an applet is called with: its own name, then
/// the arguments from position `from` on.
pub open spec fn argv_of(name: Seq<char>, args: Seq<Seq<char>>, from: int) -> Seq<Seq<char>> {
    if 0 <= from <= args.len() {
        seq![name] + args.subrange(from, args.len() as int)
    } else {
        seq![name]
    }
}

/// The row of `rows` that carries `name`.
pub open spec fn row_of(rows: Seq<AppletView>, name: Seq<char>) -> int {
    choose|i: int| 0 <= i < rows.len() && rows[i].name == name
}

/// The applet meant by an invocation.
pub enum Selection {
    /// The applet in row `index`, to be called with `argv`: its own name,
    /// then the arguments meant for it.
    Found { index: usize, argv: Vec<String> },
    /// No applet: neither the invocation name nor the first argument is
    /// known. `name` is the one to report.
    NotFound { name: String },
}

/// The mathematical content of a `Selection`.
pub enum SelectionView {
    Found { index: int, argv: Seq<Seq<char>> },
    NotFound { name: Seq<char> },
}

impl View for Selection {
    type V = SelectionView;

    open spec fn view(&self) -> SelectionView {
        match self {
            Selection::Found { index, argv } => SelectionView::Found {
                index: *index as int,
                argv: strings(argv@),
            },
            Selection::NotFound { name } => SelectionView::NotFound { name: name@ },
        }
    }
}

/// The applet that the invocation name `argv0` and the arguments `args` mean
/// in a table `rows`.
///
/// The last path segment of `argv0` comes first: where it names an applet,
/// all of `args` are meant for that applet. Otherwise the first argument is
/// taken for the name, and the arguments behind it are meant for the applet.
/// Where that fails too, the name to report is the first argument, or the
/// path segment where there is no argument.
pub open spec fn selection(rows: Seq<AppletView>, argv0: Seq<char>, args: Seq<Seq<char>>) -> SelectionView {
    let own = basename(argv0);
    if has_name(rows, own) {
        SelectionView::Found { index: row_of(rows, own), argv: argv_of(own, args, 0) }
    } else if args.len() > 0 && has_name(rows, args[0]) {
        SelectionView::Found { index: row_of(rows, args[0]), argv: argv_of(args[0], args, 1) }
    } else if args.len() > 0 {
        SelectionView::NotFound { name: args[0] }
    } else {
        SelectionView::NotFound { name: own }
    }
}

/// The last path segment begins at `k` where `k` is 0 or stands behind a
/// `/`, and no `/` follows.
proof fn lemma_basename_start(path: Seq<char>, k: int)
    requires
        0 <= k <= path.len(),
        k > 0 ==> path[k - 1] == '/',
        forall|i: int| k <= i < path.len() ==> path[i] != '/',
    ensures
        basename_start(path) == k,
    decreases path.len(),
{
    if path.len() > k {
        let front = path.drop_last();
        assert(path.last() != '/');
        assert forall|i: int| k <= i < front.len() implies front[i] != '/' by {
            assert(front[i] == path[i]);
        }
        if k > 0 {
            assert(front[k - 1] == path[k - 1]);
        }
        lemma_basename_start(front, k);
    }
}

/// Whether the character at `i` is a `/`. With `ascii` set the string is
/// known to be ASCII and the character is read in constant time.
fn is_slash_at(path: &str, i: usize, ascii: bool) -> (r: bool)
    requires
        i < path@.len(),
        ascii ==> path.is_ascii(),
    ensures
        r == (path@[i as int] == '/'),
{
    if ascii {
        let b = path.get_ascii(i);
        let ghost c = path@[i as int];
        assert('\0' <= c <= '\u{7f}');
        assert(c as u8 == 47 <==> c == '/');
        b == 47
    } else {
        path.get_char(i) == '/'
    }
}

/// The last path segment of an invocation name.
pub fn applet_name(argv0: &str) -> (name: &str)
    ensures
        name@ == basename(argv0@),
{
    let ascii = argv0.is_ascii();
    let len = argv0.unicode_len();
    let mut k = len;
    while k > 0 && !is_slash_at(argv0, k - 1, ascii)
        invariant
            k <= len,
            len == argv0@.len(),
            ascii ==> argv0.is_ascii(),
            forall|i: int| k <= i < len ==> argv0@[i] != '/',
        decreases k,
    {
        k -= 1;
    }
    proof {
        lemma_basename_start(argv0@, k as int);
    }
    if ascii {
        argv0.substring_ascii(k, len)
    } else {
        argv0.substring_char(k, len)
    }
}

/// The argument vector for an applet: the applet's own name, whatever name
/// the binary was invoked under, then the arguments from position `from`
/// on.
pub fn applet_argv(name: &str, args: &Vec<String>, from: usize) -> (argv: Vec<String>)
    ensures
        strings(argv@) == argv_of(name@, strings(args@), from as int),
        argv@.len() > 0,
        argv@[0]@ == name@,
{
    let mut argv: Vec<String> = Vec::new();
    argv.push(name.to_owned());
    let start = if from < args.len() {
        from
    } else {
        args.len()
    };
    let mut i: usize = start;
    while i < args.len()
        invariant
            start <= i <= args.len(),
            argv@.len() == i - start + 1,
            argv@[0]@ == name@,
            forall|j: int| start <= j < i ==> argv@[j - start + 1]@ == args@[j]@,
        decreases args.len() - i,
    {
        argv.push(args[i].clone());
        i += 1;
    }
    assert(strings(argv@) =~= argv_of(name@, strings(args@), from as int));
    argv
}

/// Finds the applet that an invocation means: by the last path segment of
/// the invocation name or, failing that, by the first argument.
pub fn select(registry: &Registry, argv0: &str, args: &Vec<String>) -> (s: Selection)
    ensures
        s@ == selection(registry@, argv0@, strings(args@)),
        s matches Selection::Found { index, argv } ==> {
            &&& index < registry@.len()
            &&& argv@.len() > 0
            &&& registry@[index as int].name == argv@[0]@
        },
{
    let ghost table = registry@;
    proof {
        use_type_invariant(registry);
        registry.lemma_ascending();
    }
    let own = applet_name(argv0);
    match registry.position(own) {
        Some(index) => {
            proof {
                lemma_name_unique(table, row_of(table, own@), index as int);
            }
            Selection::Found { index, argv: applet_argv(own, args, 0) }
        },
        None => {
            if args.len() > 0 {
                let first = args[0].as_str();
                match registry.position(first) {
                    Some(index) => {
                        proof {
                            lemma_name_unique(table, row_of(table, first@), index as int);
                        }
                        Selection::Found { index, argv: applet_argv(first, args, 1) }
                    },
                    None => Selection::NotFound { name: args[0].clone() },
                }
            } else {
                Selection::NotFound { name: own.to_owned() }
            }
        },
    }
}

} // verus!
