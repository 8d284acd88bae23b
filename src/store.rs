//! The store of committed symbol tables, one per project root.

use crate::symbols::{DiagnosticsReport, PassOutcome, PassReport, Symbol, Symbolicator, Symbols};
use vstd::prelude::*;

verus! {

/// The table a reader sees for `root` in a store whose contents are `m`:
/// the committed one, or the empty table if none was committed.
pub open spec fn lookup(m: Map<Seq<char>, Seq<Symbol>>, root: Seq<char>) -> Seq<Symbol> {
    if m.contains_key(root) {
        m[root]
    } else {
        Seq::empty()
    }
}

/// Store contents after a pass for `root` ended with `outcome`: a new table
/// replaces the old one; a failure or a pass without a table changes nothing.
pub open spec fn committed(m: Map<Seq<char>, Seq<Symbol>>, root: Seq<char>, outcome: PassOutcome) -> Map<
    Seq<char>,
    Seq<Symbol>,
> {
    match outcome {
        Ok((Some(t), _)) => m.insert(root, t@),
        _ => m,
    }
}

/// What a pass that ended with `outcome` delivers on the diagnostics channel:
/// exactly its own report, or its error.
pub open spec fn delivered(outcome: PassOutcome) -> PassReport {
    match outcome {
        Ok((_, d)) => Ok(d),
        Err(e) => Err(e),
    }
}

/// Before any pass has been committed, every root reads as the empty table.
pub proof fn lemma_empty_before_first_pass(root: Seq<char>)
    ensures
        lookup(Map::empty(), root) == Seq::<Symbol>::empty(),
{
}

/// A failed pass leaves every root's table as it was, and delivers exactly its
/// error.
pub proof fn lemma_failed_pass_keeps_tables(
    m: Map<Seq<char>, Seq<Symbol>>,
    root: Seq<char>,
    err: anyhow::Error,
    other: Seq<char>,
)
    ensures
        lookup(committed(m, root, Err(err)), other) == lookup(m, other),
        delivered(Err(err)) == PassReport::Err(err),
{
}

/// A pass that computes a table makes it the table of its root, leaves other
/// roots alone, and delivers its own report in place of any earlier one.
pub proof fn lemma_successful_pass_publishes(
    m: Map<Seq<char>, Seq<Symbol>>,
    root: Seq<char>,
    table: Symbols,
    report: DiagnosticsReport,
    other: Seq<char>,
)
    ensures
        lookup(committed(m, root, Ok((Some(table), report))), root) == table@,
        other != root ==> lookup(committed(m, root, Ok((Some(table), report))), other) == lookup(m, other),
        delivered(Ok((Some(table), report))) == PassReport::Ok(report),
{
}

/// Latest successfully committed symbol table of each project root. Entries
/// are inserted or replaced, never removed.
pub struct SymbolStore {
    entries: Vec<(String, Symbols)>,
    empty: Symbols,
    contents: Ghost<Map<Seq<char>, Seq<Symbol>>>,
}

impl View for SymbolStore {
    type V = Map<Seq<char>, Seq<Symbol>>;

    closed spec fn view(&self) -> Map<Seq<char>, Seq<Symbol>> {
        self.contents@
    }
}

impl SymbolStore {
    /// Each root has one entry, and the entries are what the view says.
    pub closed spec fn wf(&self) -> bool {
        &&& self.empty@ == Seq::<Symbol>::empty()
        &&& forall|i: int, j: int|
            0 <= i < j < self.entries@.len() ==> self.entries@[i].0@ != self.entries@[j].0@
        &&& forall|i: int|
            0 <= i < self.entries@.len() ==> self.contents@.contains_key(#[trigger] self.entries@[i].0@)
                && self.contents@[self.entries@[i].0@] == self.entries@[i].1@
        &&& forall|k: Seq<char>|
            #[trigger] self.contents@.contains_key(k) ==> exists|i: int|
                0 <= i < self.entries@.len() && #[trigger] self.entries@[i].0@ == k
    }

    /// A store in which no table has been committed.
    pub fn new() -> (r: SymbolStore)
        ensures
            r.wf(),
            r@ == Map::<Seq<char>, Seq<Symbol>>::empty(),
    {
        SymbolStore {
            entries: Vec::new(),
            empty: Symbolicator::empty_symbols(),
            contents: Ghost(Map::empty()),
        }
    }

    fn position(&self, root: &String) -> (r: Option<usize>)
        requires
            self.wf(),
        ensures
            match r {
                Some(i) => i < self.entries@.len() && self.entries@[i as int].0@ == root@,
                None => !self@.contains_key(root@),
            },
    {
        let mut i: usize = 0;
        while i < self.entries.len()
            invariant
                self.wf(),
                i <= self.entries@.len(),
                forall|j: int| 0 <= j < i ==> self.entries@[j].0@ != root@,
            decreases self.entries@.len() - i,
        {
            if self.entries[i].0 == *root {
                return Some(i);
            }
            i = i + 1;
        }
        None
    }

    /// The committed table of `root`, or the empty table if none was committed.
    pub fn get(&self, root: &String) -> (r: &Symbols)
        requires
            self.wf(),
        ensures
            r@ == lookup(self@, root@),
    {
        match self.position(root) {
            Some(i) => &self.entries[i].1,
            None => &self.empty,
        }
    }

    /// Commits `table` as the latest table of `root`.
    pub fn replace(&mut self, root: String, table: Symbols)
        requires
            old(self).wf(),
        ensures
            final(self).wf(),
            final(self)@ == old(self)@.insert(root@, table@),
    {
        let ghost k = root@;
        let ghost v = table@;
        let ghost mut at: int = 0;
        match self.position(&root) {
            Some(i) => {
                self.entries.set(i, (root, table));
                proof {
                    at = i as int;
                }
            },
            None => {
                self.entries.push((root, table));
                proof {
                    at = self.entries@.len() - 1;
                }
            },
        }
        assert(self.entries@[at].0@ == k);
        self.contents = Ghost(self.contents@.insert(k, v));
        assert forall|k2: Seq<char>| #[trigger] self.contents@.contains_key(k2) implies exists|i: int|
            0 <= i < self.entries@.len() && #[trigger] self.entries@[i].0@ == k2 by {
            if k2 == k {
                assert(self.entries@[at].0@ == k2);
            } else {
                let i = choose|i: int| 0 <= i < old(self).entries@.len() && #[trigger] old(self).entries@[i].0@ == k2;
                assert(self.entries@[i].0@ == k2);
            }
        }
    }

    /// Publishes the outcome of a pass for `root`: a new table replaces the
    /// committed one, anything else leaves the store as it was. Returns what
    /// goes to the diagnostics channel, which is sent on every pass.
    pub fn commit_pass(&mut self, root: &String, outcome: PassOutcome) -> (r: PassReport)
        requires
            old(self).wf(),
        ensures
            final(self).wf(),
            final(self)@ == committed(old(self)@, root@, outcome),
            r == delivered(outcome),
    {
        match outcome {
            Ok((symbols_opt, diagnostics)) => {
                match symbols_opt {
                    Some(new_symbols) => self.replace(root.clone(), new_symbols),
                    None => {},
                }
                Ok(diagnostics)
            },
            Err(err) => Err(err),
        }
    }
}

} // verus!
