//! One terminal session: the catalog, the navigator, the theme, and the
//! append-only history of (request, result) pairs.
//!
//! Each submitted line runs to completion before the next is accepted.
//! A line whose trimmed text is exactly `clear` is intercepted before
//! tokenization: it wipes the history and touches nothing else (an
//! entry's identifier is its index, so discarding the entries also resets
//! the numbering). Every other line is tokenized, dispatched, and
//! appended to the history together with its result.

use vstd::prelude::*;

verus! {

use crate::catalog::Catalog;
use crate::dispatch::dispatch;
use crate::dispatch::spec_dispatch;
use crate::navigator::Navigator;
use crate::outcome::CommandResult;
use crate::outcome::ResultView;
use crate::text::spec_tokenize;
use crate::text::spec_trim;
use crate::text::tokenize;
use crate::text::trim;
use crate::theme::Theme;

/// One history entry: the submitted request and its structured result.
pub struct HistoryEntry {
    pub req: String,
    pub resp: CommandResult,
}

/// The mathematical shape of a history entry.
pub struct EntryView {
    pub req: Seq<char>,
    pub resp: ResultView,
}

impl View for HistoryEntry {
    type V = EntryView;

    open spec fn view(&self) -> EntryView {
        EntryView { req: self.req@, resp: self.resp@ }
    }
}

impl DeepView for HistoryEntry {
    type V = EntryView;

    open spec fn deep_view(&self) -> EntryView {
        self@
    }
}

/// A terminal session's whole state.
pub struct Session {
    pub catalog: Catalog,
    pub nav: Navigator,
    pub theme: Theme,
    pub history: Vec<HistoryEntry>,
}

impl Session {
    /// Session invariant: the catalog is well formed and the current path
    /// (with each of its prefixes) is a valid directory key.
    pub open spec fn wf(self) -> bool {
        &&& self.catalog.wf()
        &&& self.nav.wf(self.catalog)
    }

    /// Opens a session on `catalog`: at the root, default theme, empty
    /// history.
    pub fn new(catalog: Catalog) -> (r: Session)
        requires
            catalog.wf(),
        ensures
            r.wf(),
            r.catalog == catalog,
            r.nav.segs() =~= seq!["/"@],
            r.theme == Theme::Modern,
            r.history.deep_view() =~= Seq::<EntryView>::empty(),
    {
        let nav = Navigator::new(&catalog);
        let history: Vec<HistoryEntry> = Vec::new();
        let r = Session { catalog, nav, theme: Theme::Modern, history };
        assert(r.history.deep_view() =~= Seq::<EntryView>::empty());
        r
    }

    /// Submits one raw input line.
    ///
    /// If the trimmed line is exactly `clear`, the history is wiped and
    /// the path and theme are untouched. Otherwise the line is tokenized
    /// and dispatched, and the (request, result) pair is appended.
    pub fn submit_line(&mut self, line: &str)
        requires
            old(self).wf(),
        ensures
            final(self).wf(),
            final(self).catalog == old(self).catalog,
            spec_trim(line@) == "clear"@ ==> {
                &&& final(self).history.deep_view() == Seq::<EntryView>::empty()
                &&& final(self).nav == old(self).nav
                &&& final(self).theme == old(self).theme
            },
            spec_trim(line@) != "clear"@ ==> {
                let (res, segs2, th2) = spec_dispatch(
                    old(self).catalog,
                    spec_tokenize(line@),
                    old(self).nav.segs(),
                    old(self).theme,
                );
                &&& final(self).history.deep_view() == old(self).history.deep_view().push(
                    EntryView { req: line@, resp: res },
                )
                &&& final(self).nav.segs() == segs2
                &&& final(self).theme == th2
            },
    {
        let trimmed = trim(line);
        if trimmed == "clear".to_owned() {
            self.history = Vec::new();
            assert(self.history.deep_view() =~= Seq::<EntryView>::empty());
        } else {
            let tokens = tokenize(line);
            let resp = dispatch(&self.catalog, &mut self.nav, &mut self.theme, &tokens);
            let ghost rv = resp@;
            let ghost hv = self.history.deep_view();
            let entry = HistoryEntry { req: line.to_owned(), resp };
            self.history.push(entry);
            assert(self.history.deep_view() =~= hv.push(EntryView { req: line@, resp: rv }));
        }
    }
}

} // verus!
