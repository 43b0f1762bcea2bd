//! Paging through the lists of the screens (categories, products, clients,
//! rooms).

use vstd::prelude::*;

verus! {

/// Holds the pagination state (generic, for various entities).
#[derive(Clone, Copy, Debug)]
pub struct PaginationConfig {
    pub items_per_page: i32,
    pub current_page: i32,
}

/// Identifies a pagination action: `Up` and `Back` go to the previous page,
/// `Down` and `Forward` to the next one.
#[derive(Clone, Copy, Debug, PartialEq, Eq, Structural)]
pub enum PaginationAction {
    Up,
    Down,
    Back,
    Forward,
}

impl PaginationAction {
    /// Whether the action goes to the next page.
    pub open spec fn goes_forward(self) -> bool {
        self is Down || self is Forward
    }
}

/// The page a list shows after moving back from `page`.
pub open spec fn page_after_back(page: int) -> int {
    if page > 0 {
        page - 1
    } else {
        page
    }
}

/// The page a list of `len` items shows after moving forward from `page`: the
/// next page, when it starts before the end of the list.
pub open spec fn page_after_forward(page: int, per_page: int, len: nat) -> int {
    if (page + 1) * per_page < len_as_i32(len) {
        page + 1
    } else {
        page
    }
}

/// The length of a list converted to `i32`, or 0 when it does not fit.
pub open spec fn len_as_i32(len: nat) -> int {
    if len <= i32::MAX {
        len as int
    } else {
        0
    }
}

impl PaginationConfig {
    /// A positive page size and a page that is not negative.
    pub open spec fn wf(self) -> bool {
        0 < self.items_per_page && 0 <= self.current_page
    }

    pub open spec fn page(self) -> int {
        self.current_page as int
    }

    pub open spec fn per_page(self) -> int {
        self.items_per_page as int
    }

    /// The index of the first item of the current page.
    pub open spec fn start(self) -> int {
        self.current_page * self.items_per_page
    }

    /// The page that the next forward step reaches starts inside `i32`.
    pub open spec fn can_step_forward(self) -> bool {
        &&& self.current_page + 1 <= i32::MAX
        &&& i32::MIN <= (self.current_page + 1) * self.items_per_page <= i32::MAX
    }

    /// The configuration after `action` on a list of `len` items.
    pub open spec fn after(self, action: PaginationAction, len: nat) -> PaginationConfig {
        if action.goes_forward() {
            PaginationConfig {
                current_page: page_after_forward(self.page(), self.per_page(), len) as i32,
                ..self
            }
        } else {
            PaginationConfig { current_page: page_after_back(self.page()) as i32, ..self }
        }
    }

    /// The first page, `items_per_page` items on each.
    pub fn new(items_per_page: i32) -> (p: Self)
        requires
            items_per_page > 0,
        ensures
            p.wf(),
            p.page() == 0,
            p.per_page() == items_per_page,
    {
        PaginationConfig { items_per_page, current_page: 0 }
    }

    pub fn current_page(&self) -> (p: i32)
        ensures
            p == self.page(),
    {
        self.current_page
    }

    pub fn items_per_page(&self) -> (n: i32)
        ensures
            n == self.per_page(),
    {
        self.items_per_page
    }

    /// Moves to the previous page, if there is one.
    pub fn previous_page(&mut self)
        ensures
            final(self).page() == page_after_back(old(self).page()),
            final(self).per_page() == old(self).per_page(),
    {
        if self.current_page > 0 {
            self.current_page = self.current_page - 1;
        }
    }

    /// Moves to the next page of a list of `len` items, if that page starts
    /// inside the list.
    pub fn next_page(&mut self, len: usize)
        requires
            old(self).can_step_forward(),
        ensures
            final(self).page() == page_after_forward(
                old(self).page(),
                old(self).per_page(),
                len as nat,
            ),
            final(self).per_page() == old(self).per_page(),
    {
        let next_page = self.current_page + 1;
        let next_page_start = next_page * self.items_per_page;
        let len_i32: i32 = if len <= 0x7fff_ffff {
            len as i32
        } else {
            0
        };
        if next_page_start < len_i32 {
            self.current_page = self.current_page + 1;
        }
    }

    /// Applies a pagination action to a list of `len` items.
    pub fn apply(&mut self, action: PaginationAction, len: usize)
        requires
            action.goes_forward() ==> old(self).can_step_forward(),
        ensures
            *final(self) == old(self).after(action, len as nat),
    {
        match action {
            PaginationAction::Up | PaginationAction::Back => self.previous_page(),
            PaginationAction::Down | PaginationAction::Forward => self.next_page(len),
        }
    }

    /// The indices `start..end` of the items of a list of `len` items that the
    /// current page shows.
    pub fn page_range(&self, len: usize) -> (r: (usize, usize))
        requires
            self.wf(),
            self.start() <= len,
        ensures
            r.0 == self.start(),
            r.1 == (if self.start() + self.per_page() < len {
                self.start() + self.per_page()
            } else {
                len as int
            }),
            r.0 <= r.1 <= len,
    {
        proof {
            assert(self.current_page as usize * self.items_per_page as usize == self.start())
                by (nonlinear_arith)
                requires
                    self.current_page >= 0,
                    self.items_per_page > 0,
                    self.current_page * self.items_per_page <= len,
            ;
        }
        let start = self.current_page as usize * self.items_per_page as usize;
        let per_page = self.items_per_page as usize;
        let end = if per_page < len - start {
            start + per_page
        } else {
            len
        };
        (start, end)
    }
}

impl Default for PaginationConfig {
    fn default() -> (p: Self)
        ensures
            p.wf(),
            p.page() == 0,
            p.per_page() == 13,
    {
        PaginationConfig { items_per_page: 13, current_page: 0 }
    }
}

proof fn lemma_factor_bound(a: int, b: int, c: int)
    requires
        a >= 0,
        b >= 1,
        a * b < c,
    ensures
        a < c,
{
    assert(a * b >= a) by (nonlinear_arith)
        requires
            a >= 0,
            b >= 1,
    ;
}

/// Moving never leaves a well-formed configuration, and the page size stays.
pub proof fn pagination_keeps_wf(p: PaginationConfig, action: PaginationAction, len: nat)
    requires
        p.wf(),
    ensures
        p.after(action, len).wf(),
        p.after(action, len).per_page() == p.per_page(),
{
    if (p.page() + 1) * p.per_page() < len_as_i32(len) {
        lemma_factor_bound(p.page() + 1, p.per_page(), len_as_i32(len));
    }
}

/// A forward step only lands on a page that starts inside the list: after it,
/// the page range of the list is never empty unless the page did not move.
pub proof fn pagination_forward_stays_in_list(p: PaginationConfig, len: nat)
    requires
        p.wf(),
    ensures
        p.after(PaginationAction::Down, len).page() != p.page() ==> p.after(
            PaginationAction::Down,
            len,
        ).start() < len,
{
    if (p.page() + 1) * p.per_page() < len_as_i32(len) {
        lemma_factor_bound(p.page() + 1, p.per_page(), len_as_i32(len));
        assert(p.after(PaginationAction::Down, len).page() == p.page() + 1);
        assert(p.after(PaginationAction::Down, len).start() == (p.page() + 1) * p.per_page());
    }
}

/// A step back undoes a forward step that moved.
pub proof fn pagination_back_undoes_forward(p: PaginationConfig, len: nat)
    requires
        p.wf(),
        p.after(PaginationAction::Forward, len).page() != p.page(),
    ensures
        p.after(PaginationAction::Forward, len).after(PaginationAction::Back, len) == p,
{
    lemma_factor_bound(p.page() + 1, p.per_page(), len_as_i32(len));
}

/// On the first page a step back changes nothing.
pub proof fn pagination_back_from_first_page(p: PaginationConfig, len: nat)
    requires
        p.page() == 0,
    ensures
        p.after(PaginationAction::Up, len) == p,
{
}

} // verus!
