//! The response table and the resolver that maps an invocation string to a
//! response.
use vstd::prelude::*;

use crate::pattern::{pattern_compiles, pattern_matches, CompiledPattern};
use crate::response::{fallback_view, ResponseEntry, ResponseView};

verus! {

/// A table as a sequence of (name, response) pairs, in table order.
pub type TableView = Seq<(Seq<char>, ResponseView)>;

/// No two entries of the table share a name.
pub open spec fn names_unique(t: TableView) -> bool {
    forall|i: int, j: int| 0 <= i < t.len() && 0 <= j < t.len() && i != j ==> t[i].0 != t[j].0
}

/// Entry `i` is named exactly `s`.
pub open spec fn exact_hit(t: TableView, s: Seq<char>, i: int) -> bool {
    0 <= i < t.len() && t[i].0 == s
}

/// No entry is named `s`.
pub open spec fn no_exact_hit(t: TableView, s: Seq<char>) -> bool {
    forall|i: int| 0 <= i < t.len() ==> t[i].0 != s
}

/// Entry `i` has a pattern, and that pattern matches somewhere in `s`.
pub open spec fn pattern_hit(t: TableView, s: Seq<char>, i: int) -> bool {
    &&& 0 <= i < t.len()
    &&& t[i].1.match_pattern matches Some(p) && pattern_matches(p, s)
}

/// Entry `i` is the first entry, in table order, whose pattern matches `s`.
pub open spec fn first_pattern_hit(t: TableView, s: Seq<char>, i: int) -> bool {
    &&& pattern_hit(t, s, i)
    &&& forall|j: int| 0 <= j < i ==> !pattern_hit(t, s, j)
}

/// No entry's pattern matches `s`.
pub open spec fn no_pattern_hit(t: TableView, s: Seq<char>) -> bool {
    forall|i: int| 0 <= i < t.len() ==> !pattern_hit(t, s, i)
}

/// `r` is the response that resolving `s` against `t` gives: the entry named
/// `s` if there is one; else the first entry whose pattern matches `s`; else
/// the "unrecognized command" failure.
pub open spec fn resolves_to(t: TableView, s: Seq<char>, r: ResponseView) -> bool {
    &&& forall|i: int| exact_hit(t, s, i) ==> r == t[i].1
    &&& forall|i: int| no_exact_hit(t, s) && first_pattern_hit(t, s, i) ==> r == t[i].1
    &&& no_exact_hit(t, s) && no_pattern_hit(t, s) ==> r == fallback_view(s)
}

/// The view of a list of named entries.
pub open spec fn items_view(items: Seq<(String, ResponseEntry)>) -> TableView {
    items.map_values(|p: (String, ResponseEntry)| (p.0@, p.1@))
}

/// Item `i` may join a table holding the items before it: its name is new
/// and its pattern, if any, compiles.
pub open spec fn item_admissible(t: TableView, i: int) -> bool {
    &&& forall|j: int| 0 <= j < i ==> t[j].0 != t[i].0
    &&& t[i].1.match_pattern matches Some(p) ==> pattern_compiles(p)
}

/// Item `i` is the first item that may not join the table.
pub open spec fn first_rejected(t: TableView, i: int) -> bool {
    &&& 0 <= i < t.len()
    &&& !item_admissible(t, i)
    &&& forall|j: int| 0 <= j < i ==> item_admissible(t, j)
}

/// Why a configuration cannot become a table.
#[derive(Debug)]
pub enum ConfigError {
    /// Two entries carry this name.
    DuplicateName { name: String },
    /// The entry with this name has a pattern that does not compile.
    InvalidPattern { name: String, error: regex::Error },
}

impl ConfigError {
    /// The name of the entry that was rejected.
    pub fn name(&self) -> (r: &str)
        ensures
            r@ == self.name_view(),
    {
        match self {
            ConfigError::DuplicateName { name } => name.as_str(),
            ConfigError::InvalidPattern { name, .. } => name.as_str(),
        }
    }

    pub open spec fn name_view(&self) -> Seq<char> {
        match self {
            ConfigError::DuplicateName { name } => name@,
            ConfigError::InvalidPattern { name, .. } => name@,
        }
    }
}

/// `slot` holds the compiled form of the entry's pattern, if it has one.
spec fn slot_compiled(entry: ResponseEntry, slot: Option<CompiledPattern>) -> bool {
    match entry.match_pattern {
        Some(p) => slot matches Some(c) && c@ == p@,
        None => slot is None,
    }
}

/// Named canned responses in a fixed order, each pattern compiled once.
pub struct ResponseTable {
    names: Vec<String>,
    entries: Vec<ResponseEntry>,
    patterns: Vec<Option<CompiledPattern>>,
}

impl View for ResponseTable {
    type V = TableView;

    closed spec fn view(&self) -> TableView {
        Seq::new(self.names@.len(), |i: int| (self.names@[i]@, self.entries@[i]@))
    }
}

impl ResponseTable {
    #[verifier::type_invariant]
    closed spec fn well_formed(&self) -> bool {
        &&& self.entries@.len() == self.names@.len()
        &&& self.patterns@.len() == self.names@.len()
        &&& names_unique(self@)
        &&& forall|i: int| 0 <= i < self.names@.len() ==> self.compiled_at(i)
    }

    closed spec fn compiled_at(&self, i: int) -> bool {
        slot_compiled(self.entries@[i], self.patterns@[i])
    }

    /// Builds a table from named entries, kept in the order given.
    ///
    /// Fails on the first item whose name was already used or whose pattern
    /// does not compile.
    pub fn new(items: Vec<(String, ResponseEntry)>) -> (r: Result<ResponseTable, ConfigError>)
        ensures
            r is Ok <==> forall|i: int| 0 <= i < items@.len() ==> item_admissible(items_view(items@), i),
            r matches Ok(t) ==> t@ == items_view(items@),
            r matches Err(e) ==> exists|i: int| {
                &&& first_rejected(items_view(items@), i)
                &&& e.name_view() == items@[i].0@
                &&& (e is DuplicateName <==> exists|j: int| 0 <= j < i && items@[j].0@ == items@[i].0@)
            },
    {
        let ghost tv = items_view(items@);
        let mut names: Vec<String> = Vec::new();
        let mut entries: Vec<ResponseEntry> = Vec::new();
        let mut patterns: Vec<Option<CompiledPattern>> = Vec::new();
        let n = items.len();
        let mut i: usize = 0;
        while i < n
            invariant
                n == items@.len(),
                tv == items_view(items@),
                i <= n,
                names@.len() == i,
                entries@.len() == i,
                patterns@.len() == i,
                forall|k: int| 0 <= k < i ==> item_admissible(tv, k),
                forall|k: int| 0 <= k < i ==> #[trigger] names@[k]@ == tv[k].0 && entries@[k]@ == tv[k].1,
                forall|k: int| 0 <= k < i ==> slot_compiled(#[trigger] entries@[k], patterns@[k]),
            decreases n - i,
        {
            let name = &items[i].0;
            let entry = &items[i].1;
            let mut j: usize = 0;
            while j < i
                invariant
                    i < n,
                    n == items@.len(),
                    tv == items_view(items@),
                    name == items@[i as int].0,
                    names@.len() == i,
                    j <= i,
                    forall|k: int| 0 <= k < i ==> #[trigger] names@[k]@ == tv[k].0,
                    forall|k: int| 0 <= k < i ==> item_admissible(tv, k),
                    forall|k: int| 0 <= k < j ==> tv[k].0 != tv[i as int].0,
                decreases i - j,
            {
                if names[j] == *name {
                    assert(first_rejected(tv, i as int));
                    assert(items@[j as int].0@ == items@[i as int].0@);
                    return Err(ConfigError::DuplicateName { name: name.clone() });
                }
                j = j + 1;
            }
            let compiled = match &entry.match_pattern {
                Some(p) => match CompiledPattern::compile(p.as_str()) {
                    Ok(c) => Some(c),
                    Err(error) => {
                        assert(tv[i as int].1.match_pattern == Some(p@));
                        assert(first_rejected(tv, i as int));
                        assert forall|k: int| 0 <= k < i implies items@[k].0@ != items@[i as int].0@ by {
                            assert(tv[k].0 == items@[k].0@);
                        }
                        return Err(ConfigError::InvalidPattern { name: name.clone(), error });
                    },
                },
                None => None,
            };
            assert(item_admissible(tv, i as int));
            names.push(name.clone());
            entries.push(entry.copy());
            patterns.push(compiled);
            i = i + 1;
        }
        assert forall|a: int, b: int| 0 <= a < n && 0 <= b < n && a != b implies tv[a].0 != tv[b].0 by {
            if a < b {
                assert(item_admissible(tv, b));
            } else {
                assert(item_admissible(tv, a));
            }
        }
        let t = ResponseTable { names, entries, patterns };
        assert(t@ =~= tv);
        Ok(t)
    }

    /// The number of entries.
    pub fn len(&self) -> (r: usize)
        ensures
            r == self@.len(),
    {
        self.names.len()
    }

    /// Resolves an invocation string to a response.
    ///
    /// The entry named exactly `invocation` wins, whatever the patterns say.
    /// Otherwise the first entry, in table order, whose pattern matches
    /// somewhere in `invocation` is returned. Otherwise the result is the
    /// "unrecognized command" failure with exit code 1.
    pub fn resolve(&self, invocation: &str) -> (r: ResponseEntry)
        ensures
            forall|i: int| exact_hit(self@, invocation@, i) ==> r@ == self@[i].1,
            forall|i: int|
                no_exact_hit(self@, invocation@) && first_pattern_hit(self@, invocation@, i)
                    ==> r@ == self@[i].1,
            no_exact_hit(self@, invocation@) && no_pattern_hit(self@, invocation@)
                ==> r@ == fallback_view(invocation@),
    {
        proof {
            use_type_invariant(self);
        }
        let key = String::from_str(invocation);
        let n = self.names.len();
        let mut i: usize = 0;
        while i < n
            invariant
                n == self@.len(),
                n == self.names@.len(),
                n == self.entries@.len(),
                key@ == invocation@,
                names_unique(self@),
                i <= n,
                forall|k: int| 0 <= k < i ==> self@[k].0 != invocation@,
            decreases n - i,
        {
            if self.names[i] == key {
                assert(exact_hit(self@, invocation@, i as int));
                assert forall|k: int| exact_hit(self@, invocation@, k) implies k == i by {
                    if k != i {
                        assert(self@[k].0 != self@[i as int].0);
                    }
                }
                return self.entries[i].copy();
            }
            i = i + 1;
        }
        let mut i: usize = 0;
        while i < n
            invariant
                n == self@.len(),
                n == self.names@.len(),
                n == self.entries@.len(),
                n == self.patterns@.len(),
                no_exact_hit(self@, invocation@),
                forall|k: int| 0 <= k < n ==> self.compiled_at(k),
                i <= n,
                forall|k: int| 0 <= k < i ==> !pattern_hit(self@, invocation@, k),
            decreases n - i,
        {
            assert(self.compiled_at(i as int));
            match &self.patterns[i] {
                Some(c) => {
                    if c.is_match(invocation) {
                        assert(first_pattern_hit(self@, invocation@, i as int));
                        assert(forall|k: int| first_pattern_hit(self@, invocation@, k) ==> k == i);
                        return self.entries[i].copy();
                    }
                },
                None => {},
            }
            i = i + 1;
        }
        ResponseEntry::unrecognized(invocation)
    }
}

/// Resolution is a function of the table and the invocation string: any two
/// responses that meet the resolver's contract for the same table and string
/// are equal.
pub proof fn lemma_resolution_deterministic(t: TableView, s: Seq<char>, r1: ResponseView, r2: ResponseView)
    requires
        resolves_to(t, s, r1),
        resolves_to(t, s, r2),
    ensures
        r1 == r2,
{
    if exists|i: int| exact_hit(t, s, i) {
        let i = choose|i: int| exact_hit(t, s, i);
        assert(r1 == t[i].1 && r2 == t[i].1);
    } else if exists|i: int| pattern_hit(t, s, i) {
        assert(no_exact_hit(t, s)) by {
            assert forall|i: int| 0 <= i < t.len() implies t[i].0 != s by {
                assert(!exact_hit(t, s, i));
            }
        }
        let k = choose|k: int| pattern_hit(t, s, k);
        let i = lemma_least_hit_below(t, s, k);
        assert(r1 == t[i].1 && r2 == t[i].1);
    } else {
        assert(no_exact_hit(t, s)) by {
            assert forall|i: int| 0 <= i < t.len() implies t[i].0 != s by {
                assert(!exact_hit(t, s, i));
            }
        }
        assert(no_pattern_hit(t, s));
    }
}

proof fn lemma_least_hit_below(t: TableView, s: Seq<char>, k: int) -> (i: int)
    requires
        pattern_hit(t, s, k),
    ensures
        first_pattern_hit(t, s, i),
    decreases k,
{
    if exists|j: int| 0 <= j < k && pattern_hit(t, s, j) {
        let j = choose|j: int| 0 <= j < k && pattern_hit(t, s, j);
        lemma_least_hit_below(t, s, j)
    } else {
        k
    }
}

} // verus!
