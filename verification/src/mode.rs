//! The two-mode session state machine and its command dispatch. One line
//! of input is dispatched per loop iteration; the dispatch decides the
//! next session state and tells the input loop what to do (fetch, render,
//! report, or quit). The loop performs the outside work and hands the
//! fetched record back through `on_fetch`.

use vstd::prelude::*;
use crate::pagination::BoundaryCondition;
use crate::pagination::PageOp;
use crate::pagination::PageState;
use crate::pagination::indices_valid;
use crate::pagination::spec_apply_op;
use crate::pagination::spec_index1;
use crate::pagination::spec_index2;
use crate::pagination::spec_index3;
use crate::pagination::visible_indices;
use crate::record::CatalogEntry;
use crate::record::Pokemon;
use crate::resolver::Resolution;
use crate::resolver::entry_score;
use crate::resolver::is_best_match;
use crate::resolver::resolve;
use crate::text::lower_of;
use crate::text::str_eq;

verus! {

/// The mode of the session. `Terminated` is the sole terminal state.
#[derive(Clone, Copy, PartialEq, Eq, Structural, Debug)]
pub enum SessionMode {
    Lookup,
    Control,
    Terminated,
}

/// What the input loop must do after a line has been dispatched.
pub enum Action {
    /// Restore the terminal and end the session.
    Quit,
    /// Fetch the detail record for `ident` and show `display_name`.
    Fetch { ident: String, display_name: String },
    /// The query matched no catalog entry; report it and re-prompt.
    NotFound,
    /// The session entered control mode; redraw the title bar.
    EnterControl,
    /// Show the move-list page whose three visible indices are given.
    ShowPage { page: u64, i1: usize, i2: usize, i3: usize },
    /// The requested page has no move inside the list; keep the display.
    NoFurtherPages,
    /// Re-fetch the record for `ident`, hand it to `on_fetch`, re-render.
    Refetch { ident: String, display_name: String },
    /// The session returned to lookup mode; redraw the lookup menu.
    BackToLookup,
    /// Nothing to do.
    Idle,
}

/// The whole session state: mode, pagination, the current record, and the
/// previous query (retained only to support re-fetch in control mode).
pub struct Session {
    pub mode: SessionMode,
    pub page: PageState,
    pub current: Option<Pokemon>,
    pub prev_query: Option<String>,
}

/// Dispatching a query line in lookup mode: the best catalog match starts
/// a fetch and is remembered as the previous query; no match leaves the
/// session unchanged and is reported explicitly.
pub open spec fn lookup_query_rel(
    s: Session,
    line: Seq<char>,
    cat: Seq<CatalogEntry>,
    s2: Session,
    a: Action,
) -> bool {
    ||| {
        &&& a matches Action::Fetch { ident, display_name } && exists|i: int|
            is_best_match(lower_of(line), cat, i) && ident@ == cat[i].ident@ && display_name@
                == cat[i].name@
        &&& s2.mode == s.mode
        &&& s2.page == s.page
        &&& s2.current == s.current
        &&& s2.prev_query matches Some(pq) && pq@ == line
    }
    ||| {
        &&& a is NotFound
        &&& s2 == s
        &&& forall|j: int| 0 <= j < cat.len() ==> entry_score(lower_of(line), cat, j) is None
    }
}

/// Dispatching "n" in control mode: the page advances exactly when all
/// three indices of the next page lie inside the move list; otherwise the
/// state is unchanged and the boundary is reported.
pub open spec fn next_page_rel(s: Session, s2: Session, a: Action) -> bool {
    match s.current {
        Option::None => s2 == s && a is Idle,
        Option::Some(rec) => {
            let c = s.page.current_page + 1;
            let o1 = s.page.offset1 as int;
            let o2 = s.page.offset2 as int;
            let o3 = s.page.offset3 as int;
            if indices_valid(c, o1, o2, o3, rec.moves@.len() as int) {
                &&& s2.mode == s.mode
                &&& s2.current == s.current
                &&& s2.prev_query == s.prev_query
                &&& s2.page == spec_apply_op(s.page, PageOp::Next)
                &&& a matches Action::ShowPage { page, i1, i2, i3 } && page == c && i1
                    == spec_index1(c, o1) && i2 == spec_index2(c, o2) && i3 == spec_index3(c, o3)
            } else {
                s2 == s && a is NoFurtherPages
            }
        },
    }
}

/// Dispatching "p" in control mode: the previous query is re-resolved and
/// its record re-fetched, and the page steps back, clamped at 1.
pub open spec fn prev_page_rel(
    s: Session,
    cat: Seq<CatalogEntry>,
    s2: Session,
    a: Action,
) -> bool {
    match s.prev_query {
        Option::None => s2 == s && a is Idle,
        Option::Some(pq) => {
            ||| {
                &&& a matches Action::Refetch { ident, display_name } && exists|i: int|
                    is_best_match(lower_of(pq@), cat, i) && ident@ == cat[i].ident@ && display_name@
                        == cat[i].name@
                &&& s2.mode == s.mode
                &&& s2.current == s.current
                &&& s2.prev_query == s.prev_query
                &&& s2.page == spec_apply_op(s.page, PageOp::Prev)
            }
            ||| {
                &&& a is NotFound
                &&& s2 == s
                &&& forall|j: int| 0 <= j < cat.len() ==> entry_score(lower_of(pq@), cat, j) is None
            }
        },
    }
}

/// The transition relation of the session state machine: what one
/// dispatched line does to the state and which action it demands.
pub open spec fn step_rel(
    s: Session,
    line: Seq<char>,
    cat: Seq<CatalogEntry>,
    s2: Session,
    a: Action,
) -> bool {
    match s.mode {
        SessionMode::Terminated => s2 == s && a is Idle,
        SessionMode::Lookup => if line == "q"@ {
            s2 == Session { mode: SessionMode::Terminated, ..s } && a is Quit
        } else if line == "r"@ {
            s2 == Session { mode: SessionMode::Control, ..s } && a is EnterControl
        } else {
            lookup_query_rel(s, line, cat, s2, a)
        },
        SessionMode::Control => if line == "q"@ {
            s2 == Session { mode: SessionMode::Terminated, ..s } && a is Quit
        } else if line == "search"@ {
            &&& s2.mode == SessionMode::Lookup
            &&& s2.page == spec_apply_op(s.page, PageOp::Reset)
            &&& s2.current == s.current
            &&& s2.prev_query == s.prev_query
            &&& a is BackToLookup
        } else if line == "n"@ {
            next_page_rel(s, s2, a)
        } else if line == "p"@ {
            prev_page_rel(s, cat, s2, a)
        } else {
            s2 == s && a is Idle
        },
    }
}

impl Session {
    /// The page number never sits below 1.
    pub open spec fn wf(self) -> bool {
        self.page.wf()
    }

    /// A fresh session: lookup mode, page 1, nothing fetched yet.
    pub fn new() -> (s: Self)
        ensures
            s.wf(),
            s.mode == SessionMode::Lookup,
            s.page.current_page == 1,
            s.page.offset1 == 0 && s.page.offset2 == 0 && s.page.offset3 == 0,
            s.current is None,
            s.prev_query is None,
    {
        Session { mode: SessionMode::Lookup, page: PageState::new(), current: None, prev_query: None }
    }

    /// Dispatches one line of input against the current mode, updates the
    /// session, and returns the action the input loop must perform.
    pub fn handle_line(&mut self, line: &str, catalog: &Vec<CatalogEntry>) -> (a: Action)
        requires
            old(self).wf(),
        ensures
            final(self).wf(),
            step_rel(*old(self), line@, catalog@, *final(self), a),
    {
        match self.mode {
            SessionMode::Terminated => Action::Idle,
            SessionMode::Lookup => {
                if str_eq(line, "q") {
                    self.mode = SessionMode::Terminated;
                    Action::Quit
                } else if str_eq(line, "r") {
                    self.mode = SessionMode::Control;
                    Action::EnterControl
                } else {
                    match resolve(line, catalog) {
                        Resolution::Match { name, ident } => {
                            self.prev_query = Some(line.to_owned());
                            Action::Fetch { ident, display_name: name }
                        },
                        Resolution::NoMatch => Action::NotFound,
                    }
                }
            },
            SessionMode::Control => {
                if str_eq(line, "q") {
                    self.mode = SessionMode::Terminated;
                    Action::Quit
                } else if str_eq(line, "search") {
                    self.mode = SessionMode::Lookup;
                    self.page.reset();
                    Action::BackToLookup
                } else if str_eq(line, "n") {
                    self.handle_next()
                } else if str_eq(line, "p") {
                    self.handle_prev(catalog)
                } else {
                    Action::Idle
                }
            },
        }
    }

    /// Advances to the next page when its three indices lie inside the
    /// current move list; otherwise reports that there is no further page
    /// and leaves the display unchanged.
    fn handle_next(&mut self) -> (a: Action)
        requires
            old(self).wf(),
        ensures
            final(self).wf(),
            next_page_rel(*old(self), *final(self), a),
    {
        let total = match &self.current {
            Some(rec) => rec.moves.len(),
            None => {
                return Action::Idle;
            },
        };
        if self.page.current_page == u64::MAX {
            proof {
                assert(!indices_valid(
                    old(self).page.current_page + 1,
                    old(self).page.offset1 as int,
                    old(self).page.offset2 as int,
                    old(self).page.offset3 as int,
                    old(self).current->0.moves@.len() as int,
                ));
            }
            return Action::NoFurtherPages;
        }
        let candidate = self.page.current_page + 1;
        match visible_indices(
            candidate,
            self.page.offset1,
            self.page.offset2,
            self.page.offset3,
            total,
        ) {
            Ok((i1, i2, i3)) => {
                self.page.next_page();
                Action::ShowPage { page: candidate, i1, i2, i3 }
            },
            Err(BoundaryCondition) => Action::NoFurtherPages,
        }
    }

    /// Steps back one page (clamped at 1) and asks for the current record
    /// to be fetched again before re-rendering.
    fn handle_prev(&mut self, catalog: &Vec<CatalogEntry>) -> (a: Action)
        requires
            old(self).wf(),
        ensures
            final(self).wf(),
            prev_page_rel(*old(self), catalog@, *final(self), a),
    {
        let pq = match &self.prev_query {
            Some(q) => q.clone(),
            None => {
                return Action::Idle;
            },
        };
        match resolve(pq.as_str(), catalog) {
            Resolution::Match { name, ident } => {
                self.page.prev_page();
                Action::Refetch { ident, display_name: name }
            },
            Resolution::NoMatch => Action::NotFound,
        }
    }

    /// The moves page to display for the current record: the session's
    /// own page when its indices are valid, otherwise the nearest valid
    /// page below it (with the offsets cleared), and nothing when the
    /// record has no displayable page at all.
    pub fn displayed_page(&self) -> (r: Option<(u64, usize, usize, usize)>)
        requires
            self.wf(),
        ensures
            match self.current {
                Option::None => r is None,
                Option::Some(rec) => {
                    let total = rec.moves@.len() as int;
                    let page = self.page.current_page as int;
                    match r {
                        Option::Some(v) => {
                            &&& 1 <= v.0 <= page
                            &&& if indices_valid(
                                page,
                                self.page.offset1 as int,
                                self.page.offset2 as int,
                                self.page.offset3 as int,
                                total,
                            ) {
                                &&& v.0 == page
                                &&& v.1 == spec_index1(page, self.page.offset1 as int)
                                &&& v.2 == spec_index2(page, self.page.offset2 as int)
                                &&& v.3 == spec_index3(page, self.page.offset3 as int)
                            } else {
                                &&& indices_valid(v.0 as int, 0, 0, 0, total)
                                &&& v.1 == spec_index1(v.0 as int, 0)
                                &&& v.2 == spec_index2(v.0 as int, 0)
                                &&& v.3 == spec_index3(v.0 as int, 0)
                                &&& forall|q: int|
                                    v.0 < q <= page ==> !indices_valid(q, 0, 0, 0, total)
                            }
                            &&& v.1 < rec.moves@.len() && v.2 < rec.moves@.len() && v.3
                                < rec.moves@.len()
                        },
                        Option::None => !indices_valid(
                            page,
                            self.page.offset1 as int,
                            self.page.offset2 as int,
                            self.page.offset3 as int,
                            total,
                        ) && forall|q: int| !indices_valid(q, 0, 0, 0, total),
                    }
                },
            },
    {
        let total = match &self.current {
            Some(rec) => rec.moves.len(),
            None => {
                return None;
            },
        };
        match self.page.visible(total) {
            Ok((i1, i2, i3)) => Some((self.page.current_page, i1, i2, i3)),
            Err(_) => match crate::pagination::nearest_valid_page(self.page.current_page, total) {
                Some(p) => match visible_indices(p, 0, 0, 0, total) {
                    Ok((i1, i2, i3)) => Some((p, i1, i2, i3)),
                    Err(_) => None,
                },
                None => None,
            },
        }
    }

    /// Takes a freshly fetched record as the current one. The pagination
    /// state is deliberately kept: the paginated move list is client-held
    /// state independent of a re-fetch.
    pub fn on_fetch(&mut self, record: Pokemon)
        ensures
            final(self).current == Option::Some(record),
            final(self).mode == old(self).mode,
            final(self).page == old(self).page,
            final(self).prev_query == old(self).prev_query,
    {
        self.current = Some(record);
    }
}

/// Mode round trip: entering control mode with "r" and returning with
/// "search" ends back in lookup mode with the page reset to 1.
pub proof fn lemma_mode_round_trip(
    s0: Session,
    s1: Session,
    s2: Session,
    cat: Seq<CatalogEntry>,
    a1: Action,
    a2: Action,
)
    requires
        s0.mode == SessionMode::Lookup,
        step_rel(s0, "r"@, cat, s1, a1),
        step_rel(s1, "search"@, cat, s2, a2),
    ensures
        s2.mode == SessionMode::Lookup,
        s2.page.current_page == 1,
{
    reveal_strlit("q");
    reveal_strlit("r");
    reveal_strlit("search");
    assert("r"@[0] == 'r' && "q"@[0] == 'q');
    assert("r"@ != "q"@);
    assert("search"@ != "q"@);
    assert(s1.mode == SessionMode::Control);
}

/// Quitting from either live mode terminates the session and demands that
/// the terminal be restored.
pub proof fn lemma_quit_terminates(
    s0: Session,
    s1: Session,
    cat: Seq<CatalogEntry>,
    a: Action,
)
    requires
        s0.mode == SessionMode::Lookup || s0.mode == SessionMode::Control,
        step_rel(s0, "q"@, cat, s1, a),
    ensures
        s1.mode == SessionMode::Terminated,
        a is Quit,
{
}

} // verus!
