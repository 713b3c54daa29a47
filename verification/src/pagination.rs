//! Pagination engine: tracks the current move-list page and computes the
//! three visible move indices for a page, applying per-row corrective
//! offsets. An index that would fall outside the move list is reported as
//! a boundary condition instead of being produced.

use vstd::prelude::*;

verus! {

/// Signals that a computed move index or page falls outside the valid
/// range of the current move list.
#[derive(Clone, Copy, PartialEq, Eq, Structural, Debug)]
pub struct BoundaryCondition;

/// The pagination state: the current page (always at least 1) and the
/// three per-row corrective offsets (zero by default).
#[derive(Clone, Copy, PartialEq, Eq, Structural, Debug)]
pub struct PageState {
    pub current_page: u64,
    pub offset1: i32,
    pub offset2: i32,
    pub offset3: i32,
}

/// One operation on the pagination state, used to state properties of
/// whole sequences of calls.
#[derive(Clone, Copy, PartialEq, Eq, Structural, Debug)]
pub enum PageOp {
    Next,
    Prev,
    Reset,
}

/// Index of the first visible move row on a page.
pub open spec fn spec_index1(page: int, off: int) -> int {
    3 * page - 2 + off
}

/// Index of the second visible move row on a page.
pub open spec fn spec_index2(page: int, off: int) -> int {
    3 * page - 1 + off
}

/// Index of the third visible move row on a page.
pub open spec fn spec_index3(page: int, off: int) -> int {
    3 * page + off
}

/// All three visible indices of `page` lie inside a move list of length
/// `total`.
pub open spec fn indices_valid(page: int, o1: int, o2: int, o3: int, total: int) -> bool {
    &&& 0 <= spec_index1(page, o1) < total
    &&& 0 <= spec_index2(page, o2) < total
    &&& 0 <= spec_index3(page, o3) < total
}

/// What one pagination operation does to the state.
pub open spec fn spec_apply_op(p: PageState, op: PageOp) -> PageState {
    match op {
        PageOp::Next => if p.current_page == u64::MAX {
            p
        } else {
            PageState { current_page: (p.current_page + 1) as u64, ..p }
        },
        PageOp::Prev => if p.current_page > 1 {
            PageState { current_page: (p.current_page - 1) as u64, ..p }
        } else {
            PageState { current_page: 1, ..p }
        },
        PageOp::Reset => PageState { current_page: 1, offset1: 0, offset2: 0, offset3: 0 },
    }
}

/// The state after a whole sequence of pagination operations.
pub open spec fn spec_apply_ops(p: PageState, ops: Seq<PageOp>) -> PageState
    decreases ops.len(),
{
    if ops.len() == 0 {
        p
    } else {
        spec_apply_op(spec_apply_ops(p, ops.drop_last()), ops.last())
    }
}

impl PageState {
    /// The page number never sits below 1.
    pub open spec fn wf(self) -> bool {
        1 <= self.current_page
    }

    /// A fresh state: page 1, no corrective offsets.
    pub fn new() -> (s: Self)
        ensures
            s.wf(),
            s.current_page == 1,
            s.offset1 == 0 && s.offset2 == 0 && s.offset3 == 0,
    {
        PageState { current_page: 1, offset1: 0, offset2: 0, offset3: 0 }
    }

    /// Advances to the next page.
    pub fn next_page(&mut self)
        requires
            old(self).current_page < u64::MAX,
        ensures
            *final(self) == spec_apply_op(*old(self), PageOp::Next),
            final(self).current_page == old(self).current_page + 1,
            old(self).wf() ==> final(self).wf(),
    {
        self.current_page = self.current_page + 1;
    }

    /// Steps back one page, clamped so the page never drops below 1.
    pub fn prev_page(&mut self)
        ensures
            *final(self) == spec_apply_op(*old(self), PageOp::Prev),
            final(self).current_page == if old(self).current_page > 1 {
                (old(self).current_page - 1) as u64
            } else {
                1u64
            },
            final(self).wf(),
    {
        if self.current_page > 1 {
            self.current_page = self.current_page - 1;
        } else {
            self.current_page = 1;
        }
    }

    /// Returns to page 1 and clears any transient offsets.
    pub fn reset(&mut self)
        ensures
            *final(self) == spec_apply_op(*old(self), PageOp::Reset),
            final(self).current_page == 1,
            final(self).offset1 == 0 && final(self).offset2 == 0 && final(self).offset3 == 0,
            final(self).wf(),
    {
        self.current_page = 1;
        self.offset1 = 0;
        self.offset2 = 0;
        self.offset3 = 0;
    }

    /// The visible indices for this state's current page against a move
    /// list of the given length.
    pub fn visible(&self, total_moves: usize) -> (r: Result<(usize, usize, usize), BoundaryCondition>)
        ensures
            r is Ok <==> indices_valid(
                self.current_page as int,
                self.offset1 as int,
                self.offset2 as int,
                self.offset3 as int,
                total_moves as int,
            ),
            r is Ok ==> r->Ok_0.0 == spec_index1(self.current_page as int, self.offset1 as int)
                && r->Ok_0.1 == spec_index2(self.current_page as int, self.offset2 as int)
                && r->Ok_0.2 == spec_index3(self.current_page as int, self.offset3 as int),
    {
        visible_indices(self.current_page, self.offset1, self.offset2, self.offset3, total_moves)
    }
}

/// Computes the three visible move indices for `page` against a move list
/// of length `total_moves`, or reports a boundary condition when any of
/// them would fall outside `[0, total_moves)`.
pub fn visible_indices(page: u64, off1: i32, off2: i32, off3: i32, total_moves: usize) -> (r:
    Result<(usize, usize, usize), BoundaryCondition>)
    ensures
        r is Ok <==> indices_valid(
            page as int,
            off1 as int,
            off2 as int,
            off3 as int,
            total_moves as int,
        ),
        r is Ok ==> r->Ok_0.0 == spec_index1(page as int, off1 as int)
            && r->Ok_0.1 == spec_index2(page as int, off2 as int)
            && r->Ok_0.2 == spec_index3(page as int, off3 as int),
{
    let p = page as i128;
    let t = total_moves as i128;
    let i1 = 3 * p - 2 + off1 as i128;
    let i2 = 3 * p - 1 + off2 as i128;
    let i3 = 3 * p + off3 as i128;
    if 0 <= i1 && i1 < t && 0 <= i2 && i2 < t && 0 <= i3 && i3 < t {
        Ok((i1 as usize, i2 as usize, i3 as usize))
    } else {
        Err(BoundaryCondition)
    }
}

/// The nearest valid page at or below the requested one, for a move list
/// of the given length and zero offsets: the requested page itself when
/// its indices are valid, otherwise the last page that has three moves;
/// nothing when no page is valid at all (fewer than four moves).
pub fn nearest_valid_page(page: u64, total_moves: usize) -> (r: Option<u64>)
    requires
        page >= 1,
    ensures
        match r {
            Some(p) => {
                &&& 1 <= p <= page
                &&& indices_valid(p as int, 0, 0, 0, total_moves as int)
                &&& indices_valid(page as int, 0, 0, 0, total_moves as int) ==> p == page
                &&& forall|q: int|
                    p < q <= page ==> !indices_valid(q, 0, 0, 0, total_moves as int)
            },
            None => forall|q: int| !indices_valid(q, 0, 0, 0, total_moves as int),
        },
{
    if total_moves < 4 {
        return None;
    }
    let max_page = (total_moves - 1) / 3;
    proof {
        vstd::arithmetic::div_mod::lemma_fundamental_div_mod(total_moves as int - 1, 3);
        vstd::arithmetic::div_mod::lemma_mod_bound(total_moves as int - 1, 3);
    }
    let max_page = max_page as u64;
    if page <= max_page {
        Some(page)
    } else {
        Some(max_page)
    }
}

/// Every index the engine hands out lies inside the move list: an index
/// outside `[0, total)` is never produced, only reported as a boundary
/// condition.
pub proof fn lemma_visible_indices_in_range(page: int, o1: int, o2: int, o3: int, total: int)
    requires
        indices_valid(page, o1, o2, o3, total),
    ensures
        0 <= spec_index1(page, o1) < total,
        0 <= spec_index2(page, o2) < total,
        0 <= spec_index3(page, o3) < total,
{
}

/// Any sequence of pagination operations starting at page 1 (or any page
/// at or above 1) keeps the page at or above 1: stepping back never drops
/// the page below 1.
pub proof fn lemma_page_never_below_one(p: PageState, ops: Seq<PageOp>)
    requires
        p.wf(),
    ensures
        spec_apply_ops(p, ops).wf(),
    decreases ops.len(),
{
    if ops.len() > 0 {
        lemma_page_never_below_one(p, ops.drop_last());
    }
}

} // verus!
