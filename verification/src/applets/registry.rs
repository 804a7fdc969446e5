//! The applet registry: descriptors in strictly ascending name order, and the
//! lookups that the order makes possible.

use vstd::prelude::*;
use crate::applets::applet_tables::{
    applet, builtin_applet, builtin_row, descriptors, AppletView, BUILTIN_COUNT,
};
use crate::applets::builtin_order::{builtin_follows, lemma_builtin_ascending};
use crate::applets::name_order::{
    compare_names, lemma_name_lt_transitive, lemma_name_order_trichotomy, name_lt, NameOrder,
};

verus! {

/// Every row sorts strictly before every later row. Names are therefore
/// pairwise distinct.
pub open spec fn names_ascending(rows: Seq<AppletView>) -> bool {
    forall|i: int, j: int|
        #![trigger rows[i], rows[j]]
        0 <= i < j < rows.len() ==> name_lt(rows[i].name, rows[j].name)
}

/// Row `i` sorts strictly after the row before it.
pub open spec fn follows_predecessor(rows: Seq<AppletView>, i: int) -> bool {
    name_lt(rows[i - 1].name, rows[i].name)
}

/// Row `i` is the first that does not sort strictly after its predecessor.
pub open spec fn first_disorder(rows: Seq<AppletView>, i: int) -> bool {
    &&& 1 <= i < rows.len()
    &&& forall|k: int| 1 <= k < i ==> #[trigger] follows_predecessor(rows, k)
    &&& !follows_predecessor(rows, i)
}

/// The built-in table, its rows taken with the help texts `usage` in turn.
pub open spec fn builtin_table(usage: Seq<&'static str>) -> Seq<AppletView> {
    Seq::new(BUILTIN_COUNT as nat, |i: int| builtin_row(i as usize, usage[i])->0@)
}

/// The rows of `rows` that `keep` marks, in their order. A row that `keep`
/// does not reach is left out.
pub open spec fn kept(rows: Seq<AppletView>, keep: Seq<bool>) -> Seq<AppletView>
    decreases rows.len(),
{
    if rows.len() == 0 {
        Seq::empty()
    } else {
        let front = kept(rows.drop_last(), keep);
        if rows.len() - 1 < keep.len() && keep[rows.len() - 1] {
            front.push(rows.last())
        } else {
            front
        }
    }
}

/// Some row carries the name.
pub open spec fn has_name(rows: Seq<AppletView>, name: Seq<char>) -> bool {
    exists|i: int| 0 <= i < rows.len() && rows[i].name == name
}

/// Why a table of descriptors is no registry.
#[derive(Copy, Clone, Debug, PartialEq, Eq, Structural)]
pub enum ConfigError {
    /// The row at `index` repeats the name of the row before it.
    Duplicate { index: usize },
    /// The row at `index` sorts before the row that precedes it.
    Unsorted { index: usize },
    /// The built-in table was given `found` help texts, not one for each of
    /// its rows.
    HelpTexts { found: usize },
}

/// A table of applet descriptors whose names ascend strictly.
pub struct Registry {
    entries: Vec<applet>,
}

impl View for Registry {
    type V = Seq<AppletView>;

    closed spec fn view(&self) -> Seq<AppletView> {
        descriptors(self.entries@)
    }
}

/// In an ascending table a name stands in at most one row.
pub proof fn lemma_name_unique(rows: Seq<AppletView>, i: int, j: int)
    requires
        names_ascending(rows),
        0 <= i < rows.len(),
        0 <= j < rows.len(),
        rows[i].name == rows[j].name,
    ensures
        i == j,
{
    lemma_name_order_trichotomy(rows[i].name, rows[j].name);
}

/// Where each row up to `j` sorts strictly after the one before it, row `i`
/// sorts strictly before row `j`.
proof fn lemma_ascending_between(rows: Seq<AppletView>, i: int, j: int)
    requires
        0 <= i < j < rows.len(),
        forall|k: int| 1 <= k <= j ==> #[trigger] follows_predecessor(rows, k),
    ensures
        name_lt(rows[i].name, rows[j].name),
    decreases j - i,
{
    assert(follows_predecessor(rows, j));
    if i + 1 < j {
        lemma_ascending_between(rows, i, j - 1);
        lemma_name_lt_transitive(rows[i].name, rows[j - 1].name, rows[j].name);
    }
}

/// A table ascends exactly when each row sorts strictly after the one
/// before it.
pub proof fn lemma_ascending_iff_adjacent(rows: Seq<AppletView>)
    ensures
        names_ascending(rows) <==> forall|k: int|
            1 <= k < rows.len() ==> #[trigger] follows_predecessor(rows, k),
{
    if forall|k: int| 1 <= k < rows.len() ==> #[trigger] follows_predecessor(rows, k) {
        assert forall|i: int, j: int| 0 <= i < j < rows.len() implies name_lt(
            rows[i].name,
            rows[j].name,
        ) by {
            lemma_ascending_between(rows, i, j);
        }
    }
    if names_ascending(rows) {
        assert forall|k: int| 1 <= k < rows.len() implies #[trigger] follows_predecessor(
            rows,
            k,
        ) by {
            assert(name_lt(rows[k - 1].name, rows[k].name));
        }
    }
}

/// Every row that is kept is a row of the table, and what is kept of an
/// ascending table ascends.
pub proof fn lemma_kept_ascending(rows: Seq<AppletView>, keep: Seq<bool>)
    requires
        names_ascending(rows),
    ensures
        names_ascending(kept(rows, keep)),
        kept(rows, keep).len() <= rows.len(),
        forall|x: AppletView| #[trigger] kept(rows, keep).contains(x) ==> rows.contains(x),
    decreases rows.len(),
{
    if rows.len() > 0 {
        let front = rows.drop_last();
        let last = rows.last();
        assert forall|i: int, j: int| 0 <= i < j < front.len() implies name_lt(
            front[i].name,
            front[j].name,
        ) by {
            assert(front[i] == rows[i] && front[j] == rows[j]);
        }
        lemma_kept_ascending(front, keep);
        let some = kept(front, keep);
        let all = kept(rows, keep);
        assert forall|x: AppletView| #[trigger] all.contains(x) implies rows.contains(x) by {
            let i = choose|i: int| 0 <= i < all.len() && all[i] == x;
            if i < some.len() {
                assert(some[i] == x);
                assert(some.contains(x));
                let j = choose|j: int| 0 <= j < front.len() && front[j] == x;
                assert(rows[j] == x);
            } else {
                assert(rows[rows.len() - 1] == x);
            }
        }
        assert forall|i: int, j: int| 0 <= i < j < all.len() implies name_lt(
            all[i].name,
            all[j].name,
        ) by {
            if j < some.len() {
                assert(some[i] == all[i] && some[j] == all[j]);
            } else {
                assert(all[j] == last);
                assert(some[i] == all[i]);
                assert(some.contains(some[i]));
                let k = choose|k: int| 0 <= k < front.len() && front[k] == some[i];
                assert(rows[k] == all[i]);
                assert(rows[rows.len() - 1] == last);
            }
        }
    }
}

impl Registry {
    /// The invariant of a registry: its names ascend strictly.
    #[verifier::type_invariant]
    pub closed spec fn wf(&self) -> bool {
        names_ascending(descriptors(self.entries@))
    }

    /// Makes a registry of a table, after one pass over its names. A table
    /// with a repeated or misplaced name is refused, with the first
    /// offending row.
    pub fn new(entries: Vec<applet>) -> (r: Result<Registry, ConfigError>)
        ensures
            r is Ok <==> names_ascending(descriptors(entries@)),
            r matches Ok(reg) ==> reg@ == descriptors(entries@) && reg.wf(),
            r matches Err(e) ==> e is Duplicate || e is Unsorted,
            r matches Err(ConfigError::Duplicate { index }) ==> {
                &&& first_disorder(descriptors(entries@), index as int)
                &&& entries@[index - 1].name@ == entries@[index as int].name@
            },
            r matches Err(ConfigError::Unsorted { index }) ==> {
                &&& first_disorder(descriptors(entries@), index as int)
                &&& name_lt(entries@[index as int].name@, entries@[index - 1].name@)
            },
    {
        let ghost rows = descriptors(entries@);
        proof {
            lemma_ascending_iff_adjacent(rows);
        }
        let mut i: usize = 1;
        while i < entries.len()
            invariant
                1 <= i,
                rows == descriptors(entries@),
                forall|k: int| 1 <= k < i && k < rows.len() ==> #[trigger] follows_predecessor(rows, k),
            decreases entries.len() - i,
        {
            let order = compare_names(entries[i - 1].name, entries[i].name);
            if order != NameOrder::Before {
                proof {
                    assert(rows[i - 1].name == entries@[i - 1].name@);
                    assert(rows[i as int].name == entries@[i as int].name@);
                    lemma_name_order_trichotomy(rows[i - 1].name, rows[i as int].name);
                    assert(!follows_predecessor(rows, i as int));
                }
                if order == NameOrder::Same {
                    return Err(ConfigError::Duplicate { index: i });
                }
                return Err(ConfigError::Unsorted { index: i });
            }
            assert(follows_predecessor(rows, i as int));
            i += 1;
        }
        Ok(Registry { entries })
    }

    /// The registry of the built-in table, its rows given the help texts
    /// `usage` in turn. That the table is in order is proved, not tested
    /// when the program starts: the only table refused is one that comes
    /// with the wrong number of help texts.
    pub fn builtin(usage: &Vec<&'static str>) -> (r: Result<Registry, ConfigError>)
        ensures
            usage.len() == BUILTIN_COUNT ==> r is Ok,
            usage.len() != BUILTIN_COUNT ==> r == Err::<Registry, ConfigError>(
                ConfigError::HelpTexts { found: usage.len() },
            ),
            r matches Ok(reg) ==> reg@ == builtin_table(usage@) && reg.wf(),
    {
        if usage.len() != BUILTIN_COUNT {
            return Err(ConfigError::HelpTexts { found: usage.len() });
        }
        let mut entries: Vec<applet> = Vec::new();
        let mut i: usize = 0;
        while i < BUILTIN_COUNT
            invariant
                i <= BUILTIN_COUNT,
                usage.len() == BUILTIN_COUNT,
                entries@.len() == i,
                forall|k: int|
                    0 <= k < i ==> builtin_row(k as usize, usage@[k]) == Some(
                        #[trigger] entries@[k],
                    ),
            decreases BUILTIN_COUNT - i,
        {
            match builtin_applet(i, usage[i]) {
                Some(row) => {
                    entries.push(row);
                },
                None => {},
            }
            i += 1;
        }
        proof {
            let rows = descriptors(entries@);
            assert(rows =~= builtin_table(usage@));
            assert forall|k: int| 1 <= k < rows.len() implies #[trigger] follows_predecessor(
                rows,
                k,
            ) by {
                lemma_builtin_ascending(k as usize, usage@[k - 1], usage@[k]);
                assert(builtin_follows(k as usize, usage@[k - 1], usage@[k]));
                assert(entries@[k - 1]@ == rows[k - 1]);
                assert(entries@[k]@ == rows[k]);
            }
            lemma_ascending_iff_adjacent(rows);
        }
        Ok(Registry { entries })
    }

    /// The registry of the rows that `keep` marks: the applets that a build
    /// has switched on. A row that `keep` does not reach is left out.
    pub fn retain(&self, keep: &Vec<bool>) -> (r: Registry)
        ensures
            r@ == kept(self@, keep@),
            r.wf(),
    {
        proof {
            use_type_invariant(self);
        }
        let ghost rows = self@;
        let mut entries: Vec<applet> = Vec::new();
        let mut i: usize = 0;
        while i < self.entries.len()
            invariant
                i <= self.entries.len(),
                rows == descriptors(self.entries@),
                descriptors(entries@) == kept(rows.subrange(0, i as int), keep@),
            decreases self.entries.len() - i,
        {
            let ghost before = descriptors(entries@);
            if i < keep.len() && keep[i] {
                entries.push(self.entries[i]);
            }
            proof {
                let upto = rows.subrange(0, i + 1);
                assert(upto.drop_last() =~= rows.subrange(0, i as int));
                assert(upto.last() == rows[i as int]);
                if i < keep@.len() && keep@[i as int] {
                    assert(descriptors(entries@) =~= before.push(rows[i as int]));
                } else {
                    assert(descriptors(entries@) =~= before);
                }
            }
            i += 1;
        }
        proof {
            assert(rows.subrange(0, i as int) =~= rows);
            lemma_kept_ascending(rows, keep@);
        }
        Registry { entries }
    }

    /// The number of applets.
    pub fn len(&self) -> (n: usize)
        ensures
            n == self@.len(),
    {
        self.entries.len()
    }

    /// The descriptors in ascending name order.
    pub fn all_applets(&self) -> (rows: &Vec<applet>)
        ensures
            descriptors(rows@) == self@,
            names_ascending(self@),
    {
        proof {
            use_type_invariant(self);
        }
        &self.entries
    }

    /// Binary search for the row that carries `name`, by whole-name
    /// comparison: a name that only begins like `name`, or that `name` only
    /// begins like, is no match.
    pub fn position(&self, name: &str) -> (r: Option<usize>)
        ensures
            r is Some <==> has_name(self@, name@),
            r matches Some(i) ==> i < self@.len() && self@[i as int].name == name@,
    {
        proof {
            use_type_invariant(self);
        }
        let ghost rows = self@;
        let mut lo: usize = 0;
        let mut hi: usize = self.entries.len();
        while lo < hi
            invariant
                lo <= hi <= rows.len(),
                rows == descriptors(self.entries@),
                names_ascending(rows),
                forall|k: int| 0 <= k < lo ==> name_lt(#[trigger] rows[k].name, name@),
                forall|k: int| hi <= k < rows.len() ==> name_lt(name@, #[trigger] rows[k].name),
            decreases hi - lo,
        {
            let mid = lo + (hi - lo) / 2;
            match compare_names(self.entries[mid].name, name) {
                NameOrder::Same => {
                    return Some(mid);
                },
                NameOrder::Before => {
                    assert forall|k: int| 0 <= k < mid + 1 implies name_lt(
                        #[trigger] rows[k].name,
                        name@,
                    ) by {
                        if k < mid {
                            assert(name_lt(rows[k].name, rows[mid as int].name));
                            lemma_name_lt_transitive(rows[k].name, rows[mid as int].name, name@);
                        }
                    }
                    lo = mid + 1;
                },
                NameOrder::After => {
                    assert forall|k: int| mid <= k < rows.len() implies name_lt(
                        name@,
                        #[trigger] rows[k].name,
                    ) by {
                        if mid < k {
                            assert(name_lt(rows[mid as int].name, rows[k].name));
                            lemma_name_lt_transitive(name@, rows[mid as int].name, rows[k].name);
                        }
                    }
                    hi = mid;
                },
            }
        }
        proof {
            assert forall|k: int| 0 <= k < rows.len() implies rows[k].name != name@ by {
                lemma_name_order_trichotomy(rows[k].name, name@);
            }
        }
        None
    }

    /// The descriptor of the applet called `name`: the one row that carries
    /// exactly that name, or nothing where no row does.
    pub fn resolve(&self, name: &str) -> (r: Option<applet>)
        ensures
            r is Some <==> has_name(self@, name@),
            r matches Some(d) ==> d@.name == name@ && self@.contains(d@),
            forall|i: int|
                0 <= i < self@.len() && #[trigger] self@[i].name == name@ ==> r is Some
                    && r->0@ == self@[i],
    {
        proof {
            use_type_invariant(self);
        }
        match self.position(name) {
            Some(k) => {
                proof {
                    assert forall|i: int|
                        0 <= i < self@.len() && #[trigger] self@[i].name == name@ implies i
                        == k by {
                        lemma_name_unique(self@, i, k as int);
                    }
                }
                Some(self.entries[k])
            },
            None => None,
        }
    }

    /// The help text of the applet called `name`, or nothing where the
    /// registry has no such applet.
    pub fn usage_for(&self, name: &str) -> (r: Option<&'static str>)
        ensures
            r is Some <==> has_name(self@, name@),
            forall|i: int|
                0 <= i < self@.len() && #[trigger] self@[i].name == name@ ==> r is Some
                    && r->0@ == self@[i].usage,
    {
        proof {
            use_type_invariant(self);
        }
        match self.position(name) {
            Some(k) => {
                proof {
                    assert forall|i: int|
                        0 <= i < self@.len() && #[trigger] self@[i].name == name@ implies i
                        == k by {
                        lemma_name_unique(self@, i, k as int);
                    }
                }
                Some(self.entries[k].usage)
            },
            None => None,
        }
    }

    /// In a registry the names ascend strictly.
    pub proof fn lemma_ascending(self)
        requires
            self.wf(),
        ensures
            names_ascending(self@),
    {
    }

    /// Of two rows of a registry the earlier sorts strictly before the
    /// later, and the two carry different names.
    pub proof fn lemma_names_ascend(self, i: int, j: int)
        requires
            self.wf(),
            0 <= i < j < self@.len(),
        ensures
            name_lt(self@[i].name, self@[j].name),
            self@[i].name != self@[j].name,
    {
        lemma_name_order_trichotomy(self@[i].name, self@[j].name);
    }
}

} // verus!
