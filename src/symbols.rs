//! Symbol identities, symbol tables, diagnostics reports and the shared store
//! of committed symbol tables.

use std::collections::BTreeMap;
use vstd::prelude::*;

verus! {

/// Whether the server announces go-to-definition and find-references support
/// to the editor.
pub const DEFS_AND_REFS_SUPPORT: bool = true;

/// Identity handle of a named program entity; never zero.
#[derive(Debug, Clone, Copy, PartialEq, Eq, Structural, Hash, PartialOrd, Ord)]
pub struct Symbol {
    id: u64,
}

impl Symbol {
    /// Zero is no handle.
    #[verifier::type_invariant]
    spec fn handle_is_non_zero(&self) -> bool {
        self.id != 0
    }

    pub closed spec fn id_spec(&self) -> u64 {
        self.id
    }

    /// The handle with number `id`, or `None` for zero, which is no handle.
    pub fn new(id: u64) -> (r: Option<Symbol>)
        ensures
            match r {
                Some(s) => id != 0 && s.id_spec() == id,
                None => id == 0,
            },
    {
        if id == 0 {
            None
        } else {
            Some(Symbol { id })
        }
    }

    pub fn id(&self) -> (r: u64)
        ensures
            r == self.id_spec(),
            r != 0,
    {
        proof {
            use_type_invariant(self);
        }
        self.id
    }
}

/// Diagnostics of one recomputation pass, ordered by symbol.
pub type DiagnosticsReport = BTreeMap<Symbol, Vec<lsp_types::Diagnostic>>;

/// What one run of the analyzer gives: a new symbol table if one could be
/// computed, and the pass's diagnostics; or the reason it failed.
pub type PassOutcome = Result<(Option<Symbols>, DiagnosticsReport), anyhow::Error>;

/// What a pass hands to the diagnostics channel.
pub type PassReport = Result<DiagnosticsReport, anyhow::Error>;

/// Snapshot of what is known of one project's symbols after a pass.
pub struct Symbols {
    symbols: Vec<Symbol>,
}

impl View for Symbols {
    type V = Seq<Symbol>;

    closed spec fn view(&self) -> Seq<Symbol> {
        self.symbols@
    }
}

impl Symbols {
    /// The table holding `symbols`.
    pub fn new(symbols: Vec<Symbol>) -> (r: Symbols)
        ensures
            r@ == symbols@,
    {
        Symbols { symbols }
    }

    pub fn symbols(&self) -> (r: &Vec<Symbol>)
        ensures
            r@ == self@,
    {
        &self.symbols
    }

    /// A copy of the table.
    pub fn snapshot(&self) -> (r: Symbols)
        ensures
            r@ == self@,
    {
        let mut out: Vec<Symbol> = Vec::new();
        let mut i: usize = 0;
        while i < self.symbols.len()
            invariant
                i <= self.symbols@.len(),
                out@ == self.symbols@.subrange(0, i as int),
            decreases self.symbols@.len() - i,
        {
            out.push(self.symbols[i]);
            i = i + 1;
        }
        assert(out@ == self.symbols@.subrange(0, self.symbols@.len() as int));
        assert(self.symbols@.subrange(0, self.symbols@.len() as int) =~= self.symbols@);
        Symbols { symbols: out }
    }
}

/// Entry point of symbol computation for a package.
pub struct Symbolicator {}

impl Symbolicator {
    /// Computes the symbols of the package at `pkg_path`. The table is
    /// optional: when it could not be recomputed, the caller keeps the old
    /// one and only the diagnostics are new.
    pub fn get_symbols(pkg_path: &str) -> (r: PassOutcome)
        ensures
            match r {
                Ok((Some(t), d)) => t@ == Seq::<Symbol>::empty() && d@ == Map::<Symbol, Vec<lsp_types::Diagnostic>>::empty(),
                _ => false,
            },
    {
        let empty_diagnostics: DiagnosticsReport = BTreeMap::new();
        Ok((Some(Symbolicator::empty_symbols()), empty_diagnostics))
    }

    /// The table of a project with no known symbols.
    pub fn empty_symbols() -> (r: Symbols)
        ensures
            r@ == Seq::<Symbol>::empty(),
    {
        Symbols { symbols: Vec::new() }
    }
}

} // verus!
