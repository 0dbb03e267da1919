//! Cursor/viewport tracking and the drill-down navigation stack.
//!
//! `MyState` keeps a selection and a scroll offset consistent with a known
//! content length and viewport height. `DirStack` stacks one such state per
//! level of a drill-down browsing history, together with an optional text
//! filter and a precomputed preview.

use vstd::prelude::*;

use crate::browser::DisplayLine;
use crate::search::MatchesSearch;

verus! {

/// Holder of a list selection, standing in for the render backend's
/// list/table cursor state.
pub trait ScrollingState: Sized {
    /// The currently selected index, if any.
    spec fn spec_selected(&self) -> Option<usize>;

    /// The same state with the selection replaced.
    spec fn spec_with_selected(&self, idx: Option<usize>) -> Self;

    /// Replacing the selection yields that selection.
    proof fn lemma_with_selected(&self, idx: Option<usize>)
        ensures
            self.spec_with_selected(idx).spec_selected() == idx,
    ;

    /// Set the selection.
    fn select_scrolling(&mut self, idx: Option<usize>)
        ensures
            *final(self) == old(self).spec_with_selected(idx),
    ;

    /// Read the selection.
    fn get_selected_scrolling(&self) -> (r: Option<usize>)
        ensures
            r == self.spec_selected(),
    ;
}

/// Cursor state of a rendered list.
#[derive(Clone, Copy, Debug)]
pub struct ListState {
    pub selected: Option<usize>,
}

impl Default for ListState {
    /// A list cursor with nothing selected.
    fn default() -> (r: Self)
        ensures
            r.selected is None,
    {
        ListState { selected: None }
    }
}

impl ScrollingState for ListState {
    open spec fn spec_selected(&self) -> Option<usize> {
        self.selected
    }

    open spec fn spec_with_selected(&self, idx: Option<usize>) -> Self {
        ListState { selected: idx }
    }

    proof fn lemma_with_selected(&self, idx: Option<usize>) {
    }

    fn select_scrolling(&mut self, idx: Option<usize>) {
        self.selected = idx;
    }

    fn get_selected_scrolling(&self) -> (r: Option<usize>) {
        self.selected
    }
}

/// Cursor state of a rendered table.
#[derive(Clone, Copy, Debug)]
pub struct TableState {
    pub selected: Option<usize>,
}

impl Default for TableState {
    /// A table cursor with nothing selected.
    fn default() -> (r: Self)
        ensures
            r.selected is None,
    {
        TableState { selected: None }
    }
}

impl ScrollingState for TableState {
    open spec fn spec_selected(&self) -> Option<usize> {
        self.selected
    }

    open spec fn spec_with_selected(&self, idx: Option<usize>) -> Self {
        TableState { selected: idx }
    }

    proof fn lemma_with_selected(&self, idx: Option<usize>) {
    }

    fn select_scrolling(&mut self, idx: Option<usize>) {
        self.selected = idx;
    }

    fn get_selected_scrolling(&self) -> (r: Option<usize>) {
        self.selected
    }
}

/// A selection request clamped to the valid range of the content.
///
/// With unknown or empty content every request collapses to `None`;
/// otherwise an out-of-range index is clamped to the last item.
pub open spec fn clamp_selection(content_len: Option<usize>, idx: Option<usize>) -> Option<
    usize,
> {
    match (content_len, idx) {
        (Some(n), Some(i)) => if n == 0 {
            None
        } else if i < n {
            Some(i)
        } else {
            Some((n - 1) as usize)
        },
        _ => None,
    }
}

/// The scroll offset after moving the selection to `sel`, keeping the
/// selection at least `scrolloff` rows from either viewport edge where the
/// viewport allows it, and never scrolling past the end of the content.
///
/// All quantities are mathematical integers; `off` is the previous offset.
pub open spec fn offset_after_select(off: int, sel: int, n: int, v: int, scrolloff: int) -> int
    recommends
        0 <= sel < n,
        1 <= v,
{
    let so = if scrolloff <= (v - 1) / 2 {
        scrolloff
    } else {
        (v - 1) / 2
    };
    let lo = if sel + so + 1 - v >= 0 {
        sel + so + 1 - v
    } else {
        0
    };
    let hi = if sel - so >= 0 {
        sel - so
    } else {
        0
    };
    let adjusted = if off < lo {
        lo
    } else if off > hi {
        hi
    } else {
        off
    };
    let max_off = if n - v >= 0 {
        n - v
    } else {
        0
    };
    if adjusted <= max_off {
        adjusted
    } else {
        max_off
    }
}

/// The selection kept at least `scrolloff` rows inside the viewport keeps
/// the selected row visible.
pub proof fn lemma_selection_visible(off: int, sel: int, n: int, v: int, scrolloff: int)
    requires
        0 <= sel < n,
        1 <= v,
        0 <= off,
        0 <= scrolloff,
    ensures
        offset_after_select(off, sel, n, v, scrolloff) <= sel,
        sel < offset_after_select(off, sel, n, v, scrolloff) + v,
        0 <= offset_after_select(off, sel, n, v, scrolloff),
{
}

/// The scroll offset a `select` request leaves behind: recomputed around
/// the clamped selection when content and viewport are known, reset when
/// the selection is cleared, kept otherwise.
pub open spec fn offset_after_request<T: ScrollingState>(
    s: MyState<T>,
    idx: Option<usize>,
    scrolloff: usize,
) -> int {
    match (clamp_selection(s.content_len, idx), s.content_len, s.viewport_len) {
        (Some(i), Some(n), Some(v)) => if v >= 1 {
            offset_after_select(s.offset as int, i as int, n as int, v as int, scrolloff as int)
        } else {
            s.offset as int
        },
        (None, _, _) => 0,
        _ => s.offset as int,
    }
}

/// Cursor, scroll offset and bounds of one scrollable list or table.
#[derive(Clone, Copy, Debug)]
pub struct MyState<T: ScrollingState> {
    pub inner: T,
    pub offset: usize,
    pub content_len: Option<usize>,
    pub viewport_len: Option<usize>,
}

impl<T: ScrollingState> MyState<T> {
    /// The selection is absent unless the content length is known and
    /// positive, and in range when present.
    pub open spec fn well_formed(&self) -> bool {
        match self.inner.spec_selected() {
            Some(i) => {
                &&& self.content_len is Some
                &&& i < self.content_len->0
            },
            None => true,
        }
    }

    /// A fresh state over `inner` with unknown bounds and no scroll.
    pub fn new(inner: T) -> (r: Self)
        ensures
            r.inner == inner,
            r.offset == 0,
            r.content_len is None,
            r.viewport_len is None,
    {
        MyState { inner, offset: 0, content_len: None, viewport_len: None }
    }

    /// Read the selection.
    pub fn get_selected(&self) -> (r: Option<usize>)
        ensures
            r == self.inner.spec_selected(),
    {
        self.inner.get_selected_scrolling()
    }

    /// Record a new viewport height. The selection does not move.
    pub fn viewport_len(&mut self, viewport_len: Option<usize>)
        ensures
            *final(self) == (MyState { viewport_len, ..*old(self) }),
    {
        self.viewport_len = viewport_len;
    }

    /// Record a new content length.
    ///
    /// The selection moves only as far as keeping it in the new range
    /// demands: it is cleared when the content becomes unknown or empty and
    /// clamped to the last item when the content shrinks past it.
    pub fn content_len(&mut self, content_len: Option<usize>)
        ensures
            *final(self) == (MyState {
                content_len,
                inner: old(self).inner.spec_with_selected(
                    clamp_selection(content_len, old(self).inner.spec_selected()),
                ),
                ..*old(self)
            }),
            final(self).well_formed(),
    {
        self.content_len = content_len;
        let sel = self.inner.get_selected_scrolling();
        let clamped: Option<usize> = match (content_len, sel) {
            (Some(n), Some(i)) => if n == 0 {
                None
            } else if i < n {
                Some(i)
            } else {
                Some(n - 1)
            },
            _ => None,
        };
        self.inner.select_scrolling(clamped);
        proof {
            old(self).inner.lemma_with_selected(
                clamp_selection(content_len, old(self).inner.spec_selected()),
            );
        }
    }

    /// Select `idx` (clamped to the content) and scroll so the selection
    /// stays at least `scrolloff` rows from either viewport edge.
    pub fn select(&mut self, idx: Option<usize>, scrolloff: usize)
        ensures
            final(self).content_len == old(self).content_len,
            final(self).viewport_len == old(self).viewport_len,
            final(self).inner == old(self).inner.spec_with_selected(
                clamp_selection(old(self).content_len, idx),
            ),
            final(self).well_formed(),
            final(self).offset as int == offset_after_request(*old(self), idx, scrolloff),
    {
        let sel = match (self.content_len, idx) {
            (Some(n), Some(i)) => if n == 0 {
                None
            } else if i < n {
                Some(i)
            } else {
                Some(n - 1)
            },
            _ => None,
        };
        proof {
            old(self).inner.lemma_with_selected(clamp_selection(old(self).content_len, idx));
        }
        match sel {
            None => {
                self.offset = 0;
            },
            Some(i) => {
                match (self.content_len, self.viewport_len) {
                    (Some(n), Some(v)) => {
                        if v >= 1 {
                            let so = if scrolloff <= (v - 1) / 2 {
                                scrolloff
                            } else {
                                (v - 1) / 2
                            };
                            // i + so + 1 - v without overflow: v - so - 1 >= 0
                            let lo = if i >= v - so - 1 {
                                i - (v - so - 1)
                            } else {
                                0
                            };
                            let hi = if i >= so {
                                i - so
                            } else {
                                0
                            };
                            let adjusted = if self.offset < lo {
                                lo
                            } else if self.offset > hi {
                                hi
                            } else {
                                self.offset
                            };
                            let max_off = if n >= v {
                                n - v
                            } else {
                                0
                            };
                            self.offset = if adjusted <= max_off {
                                adjusted
                            } else {
                                max_off
                            };
                        }
                    },
                    _ => {},
                }
            },
        }
        self.inner.select_scrolling(sel);
    }

    /// Jump to the first item, or clear the selection when the content
    /// length is unknown or zero.
    pub fn first(&mut self, scrolloff: usize)
        ensures
            final(self).content_len == old(self).content_len,
            final(self).viewport_len == old(self).viewport_len,
            final(self).inner == old(self).inner.spec_with_selected(
                first_selection(old(self).content_len),
            ),
            final(self).well_formed(),
    {
        match self.content_len {
            Some(_) => self.select(Some(0), scrolloff),
            None => self.select(None, scrolloff),
        }
    }

    /// Jump to the last item, or clear the selection when the content
    /// length is unknown or zero.
    pub fn last(&mut self, scrolloff: usize)
        ensures
            final(self).content_len == old(self).content_len,
            final(self).viewport_len == old(self).viewport_len,
            final(self).inner == old(self).inner.spec_with_selected(
                last_selection(old(self).content_len),
            ),
            final(self).well_formed(),
    {
        match self.content_len {
            Some(n) => {
                let t = if n == 0 {
                    0
                } else {
                    n - 1
                };
                self.select(Some(t), scrolloff)
            },
            None => self.select(None, scrolloff),
        }
    }

    /// Move the selection one item down. At the end it wraps to the first
    /// item when `wrap` is set and stays put otherwise.
    pub fn next(&mut self, scrolloff: usize, wrap: bool)
        requires
            old(self).well_formed(),
        ensures
            final(self).content_len == old(self).content_len,
            final(self).viewport_len == old(self).viewport_len,
            final(self).inner == old(self).inner.spec_with_selected(
                next_selection(old(self).inner.spec_selected(), old(self).content_len, wrap),
            ),
            final(self).well_formed(),
    {
        let sel = self.inner.get_selected_scrolling();
        match self.content_len {
            None => self.select(None, scrolloff),
            Some(n) => {
                if n == 0 {
                    self.select(None, scrolloff);
                } else {
                    let t = match sel {
                        Some(i) => if i + 1 < n {
                            i + 1
                        } else if wrap {
                            0
                        } else {
                            i
                        },
                        None => 0,
                    };
                    self.select(Some(t), scrolloff);
                }
            },
        }
    }

    /// Move the selection one item up. At the start it wraps to the last
    /// item when `wrap` is set and stays put otherwise.
    pub fn prev(&mut self, scrolloff: usize, wrap: bool)
        requires
            old(self).well_formed(),
        ensures
            final(self).content_len == old(self).content_len,
            final(self).viewport_len == old(self).viewport_len,
            final(self).inner == old(self).inner.spec_with_selected(
                prev_selection(old(self).inner.spec_selected(), old(self).content_len, wrap),
            ),
            final(self).well_formed(),
    {
        let sel = self.inner.get_selected_scrolling();
        match self.content_len {
            None => self.select(None, scrolloff),
            Some(n) => {
                if n == 0 {
                    self.select(None, scrolloff);
                } else {
                    let t = match sel {
                        Some(i) => if i > 0 {
                            i - 1
                        } else if wrap {
                            n - 1
                        } else {
                            0
                        },
                        None => 0,
                    };
                    self.select(Some(t), scrolloff);
                }
            },
        }
    }

    /// Move the selection half a viewport down, clamped to the last item.
    /// An unknown viewport or content clears the selection.
    pub fn next_half_viewport(&mut self, scrolloff: usize)
        requires
            old(self).well_formed(),
        ensures
            final(self).content_len == old(self).content_len,
            final(self).viewport_len == old(self).viewport_len,
            final(self).inner == old(self).inner.spec_with_selected(
                half_down_selection(
                    old(self).inner.spec_selected(),
                    old(self).content_len,
                    old(self).viewport_len,
                ),
            ),
            final(self).well_formed(),
    {
        let sel = self.inner.get_selected_scrolling();
        match (self.content_len, self.viewport_len) {
            (Some(n), Some(v)) => {
                if n == 0 {
                    self.select(None, scrolloff);
                } else {
                    let t = match sel {
                        Some(i) => if v / 2 < n - i {
                            i + v / 2
                        } else {
                            n - 1
                        },
                        None => 0,
                    };
                    self.select(Some(t), scrolloff);
                }
            },
            _ => self.select(None, scrolloff),
        }
    }

    /// Move the selection half a viewport up, clamped to the first item.
    /// An unknown viewport or content clears the selection.
    pub fn prev_half_viewport(&mut self, scrolloff: usize)
        requires
            old(self).well_formed(),
        ensures
            final(self).content_len == old(self).content_len,
            final(self).viewport_len == old(self).viewport_len,
            final(self).inner == old(self).inner.spec_with_selected(
                half_up_selection(
                    old(self).inner.spec_selected(),
                    old(self).content_len,
                    old(self).viewport_len,
                ),
            ),
            final(self).well_formed(),
    {
        let sel = self.inner.get_selected_scrolling();
        match (self.content_len, self.viewport_len) {
            (Some(n), Some(v)) => {
                if n == 0 {
                    self.select(None, scrolloff);
                } else {
                    let t = match sel {
                        Some(i) => if i >= v / 2 {
                            i - v / 2
                        } else {
                            0
                        },
                        None => 0,
                    };
                    self.select(Some(t), scrolloff);
                }
            },
            _ => self.select(None, scrolloff),
        }
    }

    /// Map a row of the rendered viewport back to the absolute index of the
    /// item shown there, if any.
    pub fn get_at_rendered_row(&self, row: usize) -> (r: Option<usize>)
        ensures
            r == at_rendered_row(*self, row),
    {
        match (self.content_len, self.viewport_len) {
            (Some(n), Some(v)) => {
                if row < v && self.offset < n && row < n - self.offset {
                    Some(self.offset + row)
                } else {
                    None
                }
            },
            _ => None,
        }
    }
}

/// The selection `first` produces.
pub open spec fn first_selection(content: Option<usize>) -> Option<usize> {
    clamp_selection(content, Some(0))
}

/// The selection `last` produces.
pub open spec fn last_selection(content: Option<usize>) -> Option<usize> {
    match content {
        Some(n) => if n == 0 {
            None
        } else {
            Some((n - 1) as usize)
        },
        None => None,
    }
}

/// The selection one `next` step produces.
pub open spec fn next_selection(sel: Option<usize>, content: Option<usize>, wrap: bool) -> Option<
    usize,
> {
    match content {
        Some(n) => if n == 0 {
            None
        } else {
            match sel {
                Some(i) => if i + 1 < n {
                    Some((i + 1) as usize)
                } else if wrap {
                    Some(0)
                } else {
                    Some(i)
                },
                None => Some(0),
            }
        },
        None => None,
    }
}

/// The selection one `prev` step produces.
pub open spec fn prev_selection(sel: Option<usize>, content: Option<usize>, wrap: bool) -> Option<
    usize,
> {
    match content {
        Some(n) => if n == 0 {
            None
        } else {
            match sel {
                Some(i) => if i > 0 {
                    Some((i - 1) as usize)
                } else if wrap {
                    Some((n - 1) as usize)
                } else {
                    Some(0)
                },
                None => Some(0),
            }
        },
        None => None,
    }
}

/// The selection a half-viewport step down produces.
pub open spec fn half_down_selection(
    sel: Option<usize>,
    content: Option<usize>,
    viewport: Option<usize>,
) -> Option<usize> {
    match (content, viewport) {
        (Some(n), Some(v)) => if n == 0 {
            None
        } else {
            match sel {
                Some(i) => if i + v / 2 < n {
                    Some((i + v / 2) as usize)
                } else {
                    Some((n - 1) as usize)
                },
                None => Some(0),
            }
        },
        _ => None,
    }
}

/// The selection a half-viewport step up produces.
pub open spec fn half_up_selection(
    sel: Option<usize>,
    content: Option<usize>,
    viewport: Option<usize>,
) -> Option<usize> {
    match (content, viewport) {
        (Some(n), Some(v)) => if n == 0 {
            None
        } else {
            match sel {
                Some(i) => if i >= v / 2 {
                    Some((i - v / 2) as usize)
                } else {
                    Some(0)
                },
                None => Some(0),
            }
        },
        _ => None,
    }
}

/// The item index shown at viewport row `row`.
pub open spec fn at_rendered_row<T: ScrollingState>(s: MyState<T>, row: usize) -> Option<usize> {
    match (s.content_len, s.viewport_len) {
        (Some(n), Some(v)) => if row < v && s.offset + row < n {
            Some((s.offset + row) as usize)
        } else {
            None
        },
        _ => None,
    }
}

/// Without wrapping, one navigation step keeps the selection inside
/// `[0, n-1]` and leaves it unchanged at the boundary, so any sequence of
/// `next`/`prev` steps over content of length `n > 0` stays in range and
/// repeated boundary steps change nothing.
pub proof fn lemma_next_prev_saturate(i: usize, n: usize)
    requires
        i < n,
    ensures
        (next_selection(Some(i), Some(n), false) matches Some(j) && j < n),
        i == n - 1 ==> next_selection(Some(i), Some(n), false) == Some(i),
        i < n - 1 ==> next_selection(Some(i), Some(n), false) == Some((i + 1) as usize),
        (prev_selection(Some(i), Some(n), false) matches Some(j) && j < n),
        i == 0 ==> prev_selection(Some(i), Some(n), false) == Some(i),
        i > 0 ==> prev_selection(Some(i), Some(n), false) == Some((i - 1) as usize),
{
}

/// The selection after `k` wrapping `next` steps over content of length
/// `n`.
pub open spec fn selection_after_wrapping_steps(sel: Option<usize>, n: usize, k: nat) -> Option<
    usize,
>
    decreases k,
{
    if k == 0 {
        sel
    } else {
        next_selection(selection_after_wrapping_steps(sel, n, (k - 1) as nat), Some(n), true)
    }
}

proof fn lemma_wrapping_steps_mod(i: usize, n: usize, k: nat)
    requires
        i < n,
    ensures
        selection_after_wrapping_steps(Some(i), n, k) == Some(((i + k) % (n as int)) as usize),
    decreases k,
{
    if k == 0 {
        vstd::arithmetic::div_mod::lemma_small_mod(i as nat, n as nat);
    } else {
        lemma_wrapping_steps_mod(i, n, (k - 1) as nat);
        let m = (i + k - 1) % (n as int);
        assert(0 <= m < n) by {
            vstd::arithmetic::div_mod::lemma_mod_bound(i + k - 1, n as int);
        }
        vstd::arithmetic::div_mod::lemma_add_mod_noop(i + k - 1, 1int, n as int);
        if n > 1 {
            vstd::arithmetic::div_mod::lemma_small_mod(1nat, n as nat);
        } else {
            vstd::arithmetic::div_mod::lemma_mod_self_0(1int);
        }
        if m + 1 < n {
            vstd::arithmetic::div_mod::lemma_small_mod((m + 1) as nat, n as nat);
        } else {
            vstd::arithmetic::div_mod::lemma_mod_self_0(n as int);
        }
    }
}

/// Selecting an item and then asking which item the row hosting it shows
/// round-trips: the selected row maps back to the selected index.
///
/// `after` is the state `select(Some(i), scrolloff)` leaves behind, as its
/// contract describes it.
pub proof fn lemma_select_then_rendered_row<T: ScrollingState>(
    s: MyState<T>,
    after: MyState<T>,
    i: usize,
    scrolloff: usize,
)
    requires
        s.content_len is Some,
        i < s.content_len->0,
        s.viewport_len is Some,
        s.viewport_len->0 >= 1,
        after.content_len == s.content_len,
        after.viewport_len == s.viewport_len,
        after.inner == s.inner.spec_with_selected(clamp_selection(s.content_len, Some(i))),
        after.offset as int == offset_after_request(s, Some(i), scrolloff),
    ensures
        after.offset <= i,
        at_rendered_row(after, (i - after.offset) as usize) == Some(i),
{
    let n = s.content_len->0 as int;
    let v = s.viewport_len->0 as int;
    lemma_selection_visible(s.offset as int, i as int, n, v, scrolloff as int);
}

/// With wrapping on, exactly `n` consecutive `next` steps over content of
/// length `n` bring the selection back to where it started.
pub proof fn lemma_wrap_cycle(i: usize, n: usize)
    requires
        i < n,
    ensures
        selection_after_wrapping_steps(Some(i), n, n as nat) == Some(i),
{
    lemma_wrapping_steps_mod(i, n, n as nat);
    vstd::arithmetic::div_mod::lemma_mod_multiples_vanish(1int, i as int, n as int);
    vstd::arithmetic::div_mod::lemma_small_mod(i as nat, n as nat);
}

/// One level of browsing history: the items of that level and their
/// cursor state.
pub type Frame<T> = (Vec<T>, MyState<ListState>);

/// A frame's cursor tracks its items.
pub open spec fn frame_wf<T>(f: Frame<T>) -> bool {
    &&& f.1.content_len == Some(f.0@.len() as usize)
    &&& f.1.well_formed()
}

/// Drill-down browsing history: a current level, the stack of levels it
/// was entered from (never empty: the bottom entry is a sentinel so going
/// back is always safe), an optional text filter and a preview of the
/// selected item.
#[derive(Debug)]
pub struct DirStack<T: MatchesSearch> {
    pub current: Frame<T>,
    pub others: Vec<Frame<T>>,
    pub preview: Vec<DisplayLine>,
    pub filter: Option<String>,
    pub filter_ignore_case: bool,
}

/// How `push` changes a stack: the current frame moves onto the ancestor
/// stack, the new items become current with the first item selected (none
/// when empty), and the filter is cleared.
pub open spec fn push_transition<T: MatchesSearch>(
    pre: DirStack<T>,
    post: DirStack<T>,
    head: Vec<T>,
) -> bool {
    &&& post.others@ == pre.others@.push(pre.current)
    &&& post.current.0 == head
    &&& post.current.1.content_len == Some(head@.len() as usize)
    &&& post.current.1.inner.spec_selected() == (if head@.len() > 0 {
        Some(0usize)
    } else {
        None::<usize>
    })
    &&& post.current.1.viewport_len is None
    &&& post.current.1.offset == 0
    &&& post.filter is None
    &&& post.preview == pre.preview
    &&& post.filter_ignore_case == pre.filter_ignore_case
}

/// How `pop` changes a stack: with only the sentinel left it is a no-op
/// returning nothing; otherwise the current frame is handed back, the most
/// recent ancestor becomes current, and the filter is cleared.
pub open spec fn pop_transition<T: MatchesSearch>(
    pre: DirStack<T>,
    post: DirStack<T>,
    r: Option<Frame<T>>,
) -> bool {
    if pre.others@.len() <= 1 {
        &&& r is None
        &&& post == pre
    } else {
        &&& r == Some(pre.current)
        &&& post.current == pre.others@.last()
        &&& post.others@ == pre.others@.drop_last()
        &&& post.filter is None
        &&& post.preview == pre.preview
        &&& post.filter_ignore_case == pre.filter_ignore_case
    }
}

/// Everything of the stack except the current frame's cursor state is
/// unchanged, and the current items keep their cursor bounds.
pub open spec fn unchanged_but_current_state<T: MatchesSearch>(
    pre: DirStack<T>,
    post: DirStack<T>,
) -> bool {
    &&& post.current.0 == pre.current.0
    &&& post.current.1.content_len == pre.current.1.content_len
    &&& post.current.1.viewport_len == pre.current.1.viewport_len
    &&& post.others == pre.others
    &&& post.filter == pre.filter
    &&& post.preview == pre.preview
    &&& post.filter_ignore_case == pre.filter_ignore_case
}

/// How `jump_forward` changes a stack: with a filter and a selection in
/// place, the selection moves to the first match strictly after it
/// (wrapping); otherwise, or when nothing matches, nothing changes.
pub open spec fn jump_fwd_transition<T: MatchesSearch>(
    pre: DirStack<T>,
    post: DirStack<T>,
) -> bool {
    match (pre.filter, pre.current.1.inner.spec_selected()) {
        (Some(f), Some(sel)) => {
            match jump_target_fwd(pre.current.0@, f@, pre.filter_ignore_case, sel as int) {
                Some(j) => {
                    &&& post.current.1.inner.spec_selected() == Some(j as usize)
                    &&& unchanged_but_current_state(pre, post)
                },
                None => post == pre,
            }
        },
        _ => post == pre,
    }
}

/// How `jump_back` changes a stack: with a filter and a selection in
/// place, the selection moves to the first match strictly before it
/// (wrapping); otherwise, or when nothing matches, nothing changes.
pub open spec fn jump_bwd_transition<T: MatchesSearch>(
    pre: DirStack<T>,
    post: DirStack<T>,
) -> bool {
    match (pre.filter, pre.current.1.inner.spec_selected()) {
        (Some(f), Some(sel)) => {
            match jump_target_bwd(pre.current.0@, f@, pre.filter_ignore_case, sel as int) {
                Some(j) => {
                    &&& post.current.1.inner.spec_selected() == Some(j as usize)
                    &&& unchanged_but_current_state(pre, post)
                },
                None => post == pre,
            }
        },
        _ => post == pre,
    }
}

impl<T: MatchesSearch> DirStack<T> {
    /// Every frame is consistent and the sentinel is in place.
    pub open spec fn wf(&self) -> bool {
        &&& self.others@.len() >= 1
        &&& frame_wf(self.current)
        &&& forall|k: int| 0 <= k < self.others@.len() ==> frame_wf(#[trigger] self.others@[k])
    }

    /// A stack over the given root items, with the first selected when
    /// there are any, no filter, and case-insensitive matching.
    pub fn new(root: Vec<T>) -> (r: Self)
        ensures
            r.wf(),
            r.others@.len() == 1,
            r.others@[0].0@.len() == 0,
            r.current.0 == root,
            r.current.1.inner.spec_selected() == (if root@.len() > 0 {
                Some(0usize)
            } else {
                None::<usize>
            }),
            r.current.1.viewport_len is None,
            r.current.1.offset == 0,
            r.filter is None,
            r.filter_ignore_case,
            r.preview@.len() == 0,
    {
        let mut sentinel_state: MyState<ListState> = MyState::new(ListState::default());
        sentinel_state.content_len(Some(0));
        let mut root_state: MyState<ListState> = MyState::new(ListState::default());
        root_state.content_len(Some(root.len()));
        root_state.select(Some(0), 0);
        let mut others: Vec<Frame<T>> = Vec::new();
        others.push((Vec::new(), sentinel_state));
        DirStack {
            current: (root, root_state),
            others,
            preview: Vec::new(),
            filter: None,
            filter_ignore_case: true,
        }
    }

    /// The frame at the top of the stack.
    pub fn current(&self) -> (r: &Frame<T>)
        ensures
            r == &self.current,
    {
        &self.current
    }

    /// Mutable access to the cursor state of the current frame.
    pub fn current_state_mut(&mut self) -> (r: &mut MyState<ListState>)
        ensures
            *r == old(self).current.1,
            *final(self) == (DirStack {
                current: (old(self).current.0, *final(r)),
                ..*old(self)
            }),
    {
        &mut self.current.1
    }

    /// The frame one level below the current one.
    pub fn previous(&self) -> (r: &Frame<T>)
        requires
            self.others@.len() >= 1,
        ensures
            r == &self.others@.last(),
    {
        &self.others[self.others.len() - 1]
    }

    /// Descend one level: the current frame is kept on the ancestor stack
    /// and `head` becomes current.
    pub fn push(&mut self, head: Vec<T>)
        requires
            old(self).wf(),
        ensures
            push_transition(*old(self), *final(self), head),
            final(self).wf(),
    {
        let mut new_state: MyState<ListState> = MyState::new(ListState::default());
        new_state.content_len(Some(head.len()));
        new_state.select(Some(0), 0);
        let mut new_current: Frame<T> = (head, new_state);
        core::mem::swap(&mut self.current, &mut new_current);
        self.others.push(new_current);
        self.filter = None;
    }

    /// Go back one level. With only the sentinel below, nothing happens
    /// and `None` is returned; otherwise the frame that was current is
    /// returned.
    pub fn pop(&mut self) -> (r: Option<Frame<T>>)
        requires
            old(self).wf(),
        ensures
            pop_transition(*old(self), *final(self), r),
            final(self).wf(),
    {
        if self.others.len() > 1 {
            self.filter = None;
            let top_opt = self.others.pop();
            match top_opt {
                Some(mut top) => {
                    core::mem::swap(&mut self.current, &mut top);
                    Some(top)
                },
                None => None,
            }
        } else {
            None
        }
    }

    /// Move the current frame's selection one item down, wrapping at the
    /// end.
    pub fn next(&mut self)
        requires
            old(self).wf(),
        ensures
            final(self).wf(),
            final(self).current.1.inner.spec_selected() == next_selection(
                old(self).current.1.inner.spec_selected(),
                old(self).current.1.content_len,
                true,
            ),
            unchanged_but_current_state(*old(self), *final(self)),
    {
        self.current.1.next(0, true);
    }

    /// Move the current frame's selection one item up, wrapping at the
    /// start.
    pub fn prev(&mut self)
        requires
            old(self).wf(),
        ensures
            final(self).wf(),
            final(self).current.1.inner.spec_selected() == prev_selection(
                old(self).current.1.inner.spec_selected(),
                old(self).current.1.content_len,
                true,
            ),
            unchanged_but_current_state(*old(self), *final(self)),
    {
        self.current.1.prev(0, true);
    }

    /// Move the current frame's selection half a viewport down.
    pub fn next_half_viewport(&mut self)
        requires
            old(self).wf(),
        ensures
            final(self).wf(),
            final(self).current.1.inner.spec_selected() == half_down_selection(
                old(self).current.1.inner.spec_selected(),
                old(self).current.1.content_len,
                old(self).current.1.viewport_len,
            ),
            unchanged_but_current_state(*old(self), *final(self)),
    {
        self.current.1.next_half_viewport(0);
    }

    /// Move the current frame's selection half a viewport up.
    pub fn prev_half_viewport(&mut self)
        requires
            old(self).wf(),
        ensures
            final(self).wf(),
            final(self).current.1.inner.spec_selected() == half_up_selection(
                old(self).current.1.inner.spec_selected(),
                old(self).current.1.content_len,
                old(self).current.1.viewport_len,
            ),
            unchanged_but_current_state(*old(self), *final(self)),
    {
        self.current.1.prev_half_viewport(0);
    }

    /// Select the first item of the current frame.
    pub fn first(&mut self)
        requires
            old(self).wf(),
        ensures
            final(self).wf(),
            final(self).current.1.inner.spec_selected() == first_selection(
                old(self).current.1.content_len,
            ),
            unchanged_but_current_state(*old(self), *final(self)),
    {
        self.current.1.first(0);
    }

    /// Select the last item of the current frame.
    pub fn last(&mut self)
        requires
            old(self).wf(),
        ensures
            final(self).wf(),
            final(self).current.1.inner.spec_selected() == last_selection(
                old(self).current.1.content_len,
            ),
            unchanged_but_current_state(*old(self), *final(self)),
    {
        self.current.1.last(0);
    }

    /// Move the selection to the next item matching the filter, scanning
    /// forward from just past the selection and wrapping at the end. A
    /// missing filter or selection, or no match, changes nothing.
    pub fn jump_forward(&mut self)
        requires
            old(self).wf(),
        ensures
            final(self).wf(),
            jump_fwd_transition(*old(self), *final(self)),
    {
        let filter = match &self.filter {
            Some(f) => f.clone(),
            None => { return ; },
        };
        let sel = match self.current.1.get_selected() {
            Some(s) => s,
            None => { return ; },
        };
        proof {
            let target = jump_target_fwd(
                self.current.0@,
                filter@,
                self.filter_ignore_case,
                sel as int,
            );
            if target is Some {
                lemma_jump_forward_finds_match(
                    self.current.0@,
                    filter@,
                    self.filter_ignore_case,
                    sel as int,
                    target->0,
                );
            }
        }
        match find_next_match(&self.current.0, filter.as_str(), self.filter_ignore_case, sel) {
            Some(j) => {
                self.current.1.select(Some(j), 0);
            },
            None => {},
        }
    }

    /// Move the selection to the previous item matching the filter,
    /// scanning backward from just before the selection and wrapping at
    /// the start. A missing filter or selection, or no match, changes
    /// nothing.
    pub fn jump_back(&mut self)
        requires
            old(self).wf(),
        ensures
            final(self).wf(),
            jump_bwd_transition(*old(self), *final(self)),
    {
        let filter = match &self.filter {
            Some(f) => f.clone(),
            None => { return ; },
        };
        let sel = match self.current.1.get_selected() {
            Some(s) => s,
            None => { return ; },
        };
        proof {
            let target = jump_target_bwd(
                self.current.0@,
                filter@,
                self.filter_ignore_case,
                sel as int,
            );
            if target is Some {
                lemma_jump_back_finds_match(
                    self.current.0@,
                    filter@,
                    self.filter_ignore_case,
                    sel as int,
                    target->0,
                );
            }
        }
        match find_prev_match(&self.current.0, filter.as_str(), self.filter_ignore_case, sel) {
            Some(j) => {
                self.current.1.select(Some(j), 0);
            },
            None => {},
        }
    }

    /// The currently selected item of the current frame.
    pub fn get_selected(&self) -> (r: Option<&T>)
        requires
            self.wf(),
        ensures
            match self.current.1.inner.spec_selected() {
                Some(i) => r is Some && r->0 == &self.current.0[i as int],
                None => r is None,
            },
    {
        match self.current.1.get_selected() {
            Some(i) => Some(&self.current.0[i]),
            None => None,
        }
    }
}

/// The position one step forward in a cyclic scan over `len` items.
pub open spec fn next_pos(i: int, len: int) -> int {
    if i + 1 < len {
        i + 1
    } else {
        0
    }
}

/// The position one step backward in a cyclic scan over `len` items.
pub open spec fn prev_pos(i: int, len: int) -> int {
    if i > 0 {
        i - 1
    } else {
        len - 1
    }
}

/// The position `k` forward steps after `start`.
pub open spec fn fwd_pos(start: int, k: nat, len: int) -> int
    decreases k,
{
    if k == 0 {
        start
    } else {
        next_pos(fwd_pos(start, (k - 1) as nat, len), len)
    }
}

/// The position `k` backward steps after `start`.
pub open spec fn bwd_pos(start: int, k: nat, len: int) -> int
    decreases k,
{
    if k == 0 {
        start
    } else {
        prev_pos(bwd_pos(start, (k - 1) as nat, len), len)
    }
}

/// First match of `filter` in a forward cyclic scan of at most `steps`
/// positions beginning at `start`.
pub open spec fn scan_fwd<T: MatchesSearch>(
    items: Seq<T>,
    filter: Seq<char>,
    ic: bool,
    start: int,
    steps: nat,
) -> Option<int>
    decreases steps,
{
    if steps == 0 {
        None
    } else if items[start].spec_matches(filter, ic) {
        Some(start)
    } else {
        scan_fwd(items, filter, ic, next_pos(start, items.len() as int), (steps - 1) as nat)
    }
}

/// First match of `filter` in a backward cyclic scan of at most `steps`
/// positions beginning at `start`.
pub open spec fn scan_bwd<T: MatchesSearch>(
    items: Seq<T>,
    filter: Seq<char>,
    ic: bool,
    start: int,
    steps: nat,
) -> Option<int>
    decreases steps,
{
    if steps == 0 {
        None
    } else if items[start].spec_matches(filter, ic) {
        Some(start)
    } else {
        scan_bwd(items, filter, ic, prev_pos(start, items.len() as int), (steps - 1) as nat)
    }
}

/// Where `jump_forward` moves the selection from `sel`: the first matching
/// item strictly after it, wrapping at the end, the selected item itself
/// excluded.
pub open spec fn jump_target_fwd<T: MatchesSearch>(
    items: Seq<T>,
    filter: Seq<char>,
    ic: bool,
    sel: int,
) -> Option<int> {
    scan_fwd(items, filter, ic, next_pos(sel, items.len() as int), (items.len() - 1) as nat)
}

/// Where `jump_back` moves the selection from `sel`: the first matching
/// item strictly before it, wrapping at the start, the selected item
/// itself excluded.
pub open spec fn jump_target_bwd<T: MatchesSearch>(
    items: Seq<T>,
    filter: Seq<char>,
    ic: bool,
    sel: int,
) -> Option<int> {
    scan_bwd(items, filter, ic, prev_pos(sel, items.len() as int), (items.len() - 1) as nat)
}

proof fn lemma_fwd_pos_range(start: int, k: nat, len: int)
    requires
        1 <= len,
        0 <= start < len,
    ensures
        0 <= fwd_pos(start, k, len) < len,
    decreases k,
{
    if k > 0 {
        lemma_fwd_pos_range(start, (k - 1) as nat, len);
    }
}

proof fn lemma_bwd_pos_range(start: int, k: nat, len: int)
    requires
        1 <= len,
        0 <= start < len,
    ensures
        0 <= bwd_pos(start, k, len) < len,
    decreases k,
{
    if k > 0 {
        lemma_bwd_pos_range(start, (k - 1) as nat, len);
    }
}

proof fn lemma_fwd_shift(x: int, u: nat, len: int)
    requires
        1 <= len,
        0 <= x < len,
    ensures
        fwd_pos(next_pos(x, len), u, len) == fwd_pos(x, (u + 1) as nat, len),
    decreases u,
{
    if u == 0 {
        assert(fwd_pos(x, 0nat, len) == x);
        assert(fwd_pos(x, 1nat, len) == next_pos(fwd_pos(x, 0nat, len), len));
    } else {
        lemma_fwd_shift(x, (u - 1) as nat, len);
        assert(fwd_pos(next_pos(x, len), u, len) == next_pos(
            fwd_pos(next_pos(x, len), (u - 1) as nat, len),
            len,
        ));
        assert(fwd_pos(x, (u + 1) as nat, len) == next_pos(fwd_pos(x, u, len), len));
    }
}

proof fn lemma_bwd_shift(x: int, u: nat, len: int)
    requires
        1 <= len,
        0 <= x < len,
    ensures
        bwd_pos(prev_pos(x, len), u, len) == bwd_pos(x, (u + 1) as nat, len),
    decreases u,
{
    if u == 0 {
        assert(bwd_pos(x, 0nat, len) == x);
        assert(bwd_pos(x, 1nat, len) == prev_pos(bwd_pos(x, 0nat, len), len));
    } else {
        lemma_bwd_shift(x, (u - 1) as nat, len);
        assert(bwd_pos(prev_pos(x, len), u, len) == prev_pos(
            bwd_pos(prev_pos(x, len), (u - 1) as nat, len),
            len,
        ));
        assert(bwd_pos(x, (u + 1) as nat, len) == prev_pos(bwd_pos(x, u, len), len));
    }
}

proof fn lemma_bwd_of_fwd(x: int, a: nat, b: nat, len: int)
    requires
        1 <= len,
        0 <= x < len,
        b <= a,
    ensures
        bwd_pos(fwd_pos(x, a, len), b, len) == fwd_pos(x, (a - b) as nat, len),
    decreases b,
{
    if b > 0 {
        lemma_bwd_of_fwd(x, a, (b - 1) as nat, len);
        let y = fwd_pos(x, (a - b) as nat, len);
        lemma_fwd_pos_range(x, (a - b) as nat, len);
        assert(fwd_pos(x, (a - b + 1) as nat, len) == next_pos(y, len));
        assert(prev_pos(next_pos(y, len), len) == y);
    }
}

/// A successful forward scan is characterized by the number of steps it
/// took: the found position matches, everything scanned before it does
/// not.
proof fn lemma_scan_fwd_found<T: MatchesSearch>(
    items: Seq<T>,
    filter: Seq<char>,
    ic: bool,
    start: int,
    steps: nat,
    j: int,
)
    requires
        1 <= items.len(),
        0 <= start < items.len(),
        scan_fwd(items, filter, ic, start, steps) == Some(j),
    ensures
        exists|t: nat|
            t < steps && j == fwd_pos(start, t, items.len() as int) && items[j].spec_matches(
                filter,
                ic,
            ) && (forall|u: nat|
                u < t ==> !items[#[trigger] fwd_pos(start, u, items.len() as int)].spec_matches(
                    filter,
                    ic,
                )),
    decreases steps,
{
    let len = items.len() as int;
    if items[start].spec_matches(filter, ic) {
        let t: nat = 0;
        assert(t < steps && j == fwd_pos(start, t, len) && items[j].spec_matches(filter, ic) && (
        forall|u: nat| u < t ==> !items[#[trigger] fwd_pos(start, u, len)].spec_matches(filter, ic)));
    } else {
        lemma_scan_fwd_found(items, filter, ic, next_pos(start, len), (steps - 1) as nat, j);
        let t0 = choose|t0: nat|
            t0 < (steps - 1) as nat && j == fwd_pos(next_pos(start, len), t0, len)
                && items[j].spec_matches(filter, ic) && (forall|u: nat|
                u < t0 ==> !items[#[trigger] fwd_pos(next_pos(start, len), u, len)].spec_matches(
                    filter,
                    ic,
                ));
        lemma_fwd_shift(start, t0, len);
        let t: nat = (t0 + 1) as nat;
        assert forall|u: nat| u < t implies !items[#[trigger] fwd_pos(start, u, len)].spec_matches(
            filter,
            ic,
        ) by {
            if u > 0 {
                lemma_fwd_shift(start, (u - 1) as nat, len);
                assert(fwd_pos(start, u, len) == fwd_pos(next_pos(start, len), (u - 1) as nat, len));
            }
        }
        assert(t < steps && j == fwd_pos(start, t, len) && items[j].spec_matches(filter, ic));
    }
}

/// A backward scan finds exactly the first matching position along its
/// path.
proof fn lemma_scan_bwd_first<T: MatchesSearch>(
    items: Seq<T>,
    filter: Seq<char>,
    ic: bool,
    start: int,
    steps: nat,
    t: nat,
)
    requires
        1 <= items.len(),
        0 <= start < items.len(),
        t < steps,
        items[bwd_pos(start, t, items.len() as int)].spec_matches(filter, ic),
        forall|u: nat|
            u < t ==> !items[#[trigger] bwd_pos(start, u, items.len() as int)].spec_matches(
                filter,
                ic,
            ),
    ensures
        scan_bwd(items, filter, ic, start, steps) == Some(
            bwd_pos(start, t, items.len() as int),
        ),
    decreases steps,
{
    let len = items.len() as int;
    if items[start].spec_matches(filter, ic) {
        assert(bwd_pos(start, 0nat, len) == start);
        assert(t == 0);
    } else {
        assert(t > 0) by {
            assert(bwd_pos(start, 0nat, len) == start);
        }
        lemma_bwd_pos_range(start, t, len);
        lemma_bwd_shift(start, (t - 1) as nat, len);
        assert forall|u: nat|
            u < (t - 1) as nat implies !items[#[trigger] bwd_pos(
            prev_pos(start, len),
            u,
            len,
        )].spec_matches(filter, ic) by {
            lemma_bwd_shift(start, u, len);
        }
        lemma_scan_bwd_first(items, filter, ic, prev_pos(start, len), (steps - 1) as nat, (t
            - 1) as nat);
    }
}

/// A found forward jump target matches the filter.
pub proof fn lemma_jump_forward_finds_match<T: MatchesSearch>(
    items: Seq<T>,
    filter: Seq<char>,
    ic: bool,
    sel: int,
    j: int,
)
    requires
        1 <= items.len(),
        0 <= sel < items.len(),
        jump_target_fwd(items, filter, ic, sel) == Some(j),
    ensures
        0 <= j < items.len(),
        items[j].spec_matches(filter, ic),
{
    let len = items.len() as int;
    lemma_scan_fwd_found(items, filter, ic, next_pos(sel, len), (len - 1) as nat, j);
    let t = choose|t: nat|
        t < (len - 1) as nat && j == fwd_pos(next_pos(sel, len), t, len) && items[j].spec_matches(
            filter,
            ic,
        ) && (forall|u: nat|
            u < t ==> !items[#[trigger] fwd_pos(next_pos(sel, len), u, len)].spec_matches(
                filter,
                ic,
            ));
    lemma_fwd_pos_range(next_pos(sel, len), t, len);
}

proof fn lemma_scan_bwd_in_range<T: MatchesSearch>(
    items: Seq<T>,
    filter: Seq<char>,
    ic: bool,
    start: int,
    steps: nat,
    j: int,
)
    requires
        1 <= items.len(),
        0 <= start < items.len(),
        scan_bwd(items, filter, ic, start, steps) == Some(j),
    ensures
        0 <= j < items.len(),
        items[j].spec_matches(filter, ic),
    decreases steps,
{
    let len = items.len() as int;
    if !items[start].spec_matches(filter, ic) {
        lemma_scan_bwd_in_range(items, filter, ic, prev_pos(start, len), (steps - 1) as nat, j);
    }
}

/// A found backward jump target matches the filter.
pub proof fn lemma_jump_back_finds_match<T: MatchesSearch>(
    items: Seq<T>,
    filter: Seq<char>,
    ic: bool,
    sel: int,
    j: int,
)
    requires
        1 <= items.len(),
        0 <= sel < items.len(),
        jump_target_bwd(items, filter, ic, sel) == Some(j),
    ensures
        0 <= j < items.len(),
        items[j].spec_matches(filter, ic),
{
    let len = items.len() as int;
    lemma_scan_bwd_in_range(items, filter, ic, prev_pos(sel, len), (len - 1) as nat, j);
}

/// Jumping forward to the next match and then jumping back returns the
/// selection exactly to where it started, provided the starting item
/// itself matches the filter: the backward scan re-crosses only positions
/// the forward scan already rejected.
pub proof fn lemma_jump_round_trip<T: MatchesSearch>(
    items: Seq<T>,
    filter: Seq<char>,
    ic: bool,
    sel: int,
)
    requires
        1 <= items.len(),
        0 <= sel < items.len(),
        items[sel].spec_matches(filter, ic),
        jump_target_fwd(items, filter, ic, sel) is Some,
    ensures
        jump_target_bwd(items, filter, ic, jump_target_fwd(items, filter, ic, sel)->0) == Some(
            sel,
        ),
{
    let len = items.len() as int;
    let j = jump_target_fwd(items, filter, ic, sel)->0;
    let start = next_pos(sel, len);
    lemma_scan_fwd_found(items, filter, ic, start, (len - 1) as nat, j);
    let t = choose|t: nat|
        t < (len - 1) as nat && j == fwd_pos(start, t, len) && items[j].spec_matches(filter, ic)
            && (forall|u: nat|
            u < t ==> !items[#[trigger] fwd_pos(start, u, len)].spec_matches(filter, ic));
    lemma_fwd_pos_range(start, t, len);
    // j is t + 1 forward steps from sel
    lemma_fwd_shift(sel, t, len);
    assert(j == fwd_pos(sel, (t + 1) as nat, len));
    // the backward path from the position before j revisits the rejected
    // positions and then reaches sel
    assert forall|u: nat| u <= t implies bwd_pos(prev_pos(j, len), u, len) == fwd_pos(
        sel,
        (t - u) as nat,
        len,
    ) by {
        lemma_bwd_shift(j, u, len);
        lemma_bwd_of_fwd(sel, (t + 1) as nat, (u + 1) as nat, len);
    }
    assert forall|u: nat| u < t implies !items[#[trigger] bwd_pos(
        prev_pos(j, len),
        u,
        len,
    )].spec_matches(filter, ic) by {
        assert(bwd_pos(prev_pos(j, len), u, len) == fwd_pos(sel, (t - u) as nat, len));
        lemma_fwd_shift(sel, (t - u - 1) as nat, len);
        assert(fwd_pos(sel, (t - u) as nat, len) == fwd_pos(start, (t - u - 1) as nat, len));
    }
    assert(bwd_pos(prev_pos(j, len), t, len) == fwd_pos(sel, 0nat, len));
    lemma_bwd_pos_range(prev_pos(j, len), t, len);
    assert(bwd_pos(j, 0nat, len) == j);
    assert(prev_pos(j, len) == bwd_pos(j, 1nat, len));
    assert(0 <= prev_pos(j, len) < len) by {
        lemma_bwd_pos_range(j, 1nat, len);
    }
    lemma_scan_bwd_first(items, filter, ic, prev_pos(j, len), (len - 1) as nat, t);
}

/// The first matching item of the whole sequence, scanning from the
/// start.
pub open spec fn first_match<T: MatchesSearch>(
    items: Seq<T>,
    filter: Seq<char>,
    ic: bool,
) -> Option<int> {
    scan_fwd(items, filter, ic, 0, items.len())
}

/// Find the first match of `filter` strictly after `sel`, wrapping at the
/// end; `sel` itself is never revisited.
pub fn find_next_match<T: MatchesSearch>(
    items: &Vec<T>,
    filter: &str,
    ic: bool,
    sel: usize,
) -> (r: Option<usize>)
    requires
        sel < items@.len(),
    ensures
        items@.len() <= usize::MAX,
        match jump_target_fwd(items@, filter@, ic, sel as int) {
            Some(j) => r == Some(j as usize),
            None => r is None,
        },
{
    let ghost seq_items = items@;
    let ghost flt = filter@;
    let len = items.len();
    let ghost start = next_pos(sel as int, len as int);
    let ghost total = (len - 1) as nat;
    let mut k: usize = 0;
    let mut pos: usize = if sel + 1 < len {
        sel + 1
    } else {
        0
    };
    let mut found: Option<usize> = None;
    while k < len - 1 && found.is_none()
        invariant
            seq_items == items@,
            flt == filter@,
            len == seq_items.len(),
            1 <= len,
            sel < len,
            start == next_pos(sel as int, len as int),
            total == (len - 1) as nat,
            k <= len - 1,
            found is None ==> pos as int == fwd_pos(start, k as nat, len as int) && pos < len,
            found is None ==> scan_fwd(seq_items, flt, ic, start, total) == scan_fwd(
                seq_items,
                flt,
                ic,
                pos as int,
                (len - 1 - k) as nat,
            ),
            found matches Some(j) ==> Some(j as int) == scan_fwd(seq_items, flt, ic, start, total),
        decreases len - k + (if found is None { 1int } else { 0int }),
    {
        let item = &items[pos];
        if item.matches(filter, ic) {
            proof {
                assert(scan_fwd(seq_items, flt, ic, pos as int, (len - 1 - k) as nat) == Some(
                    pos as int,
                ));
            }
            found = Some(pos);
        } else {
            proof {
                assert(scan_fwd(seq_items, flt, ic, pos as int, (len - 1 - k) as nat) == scan_fwd(
                    seq_items,
                    flt,
                    ic,
                    next_pos(pos as int, len as int),
                    (len - 1 - k - 1) as nat,
                ));
                assert(fwd_pos(start, (k + 1) as nat, len as int) == next_pos(
                    fwd_pos(start, k as nat, len as int),
                    len as int,
                ));
            }
            pos = if pos + 1 < len {
                pos + 1
            } else {
                0
            };
            k += 1;
        }
    }
    proof {
        if found is None {
            assert(scan_fwd(seq_items, flt, ic, pos as int, 0nat) is None);
        }
    }
    found
}

/// Find the first match of `filter` strictly before `sel`, wrapping at
/// the start; `sel` itself is never revisited.
pub fn find_prev_match<T: MatchesSearch>(
    items: &Vec<T>,
    filter: &str,
    ic: bool,
    sel: usize,
) -> (r: Option<usize>)
    requires
        sel < items@.len(),
    ensures
        items@.len() <= usize::MAX,
        match jump_target_bwd(items@, filter@, ic, sel as int) {
            Some(j) => r == Some(j as usize),
            None => r is None,
        },
{
    let ghost seq_items = items@;
    let ghost flt = filter@;
    let len = items.len();
    let ghost start = prev_pos(sel as int, len as int);
    let ghost total = (len - 1) as nat;
    let mut k: usize = 0;
    let mut pos: usize = if sel > 0 {
        sel - 1
    } else {
        len - 1
    };
    let mut found: Option<usize> = None;
    while k < len - 1 && found.is_none()
        invariant
            seq_items == items@,
            flt == filter@,
            len == seq_items.len(),
            1 <= len,
            sel < len,
            start == prev_pos(sel as int, len as int),
            total == (len - 1) as nat,
            k <= len - 1,
            found is None ==> pos as int == bwd_pos(start, k as nat, len as int) && pos < len,
            found is None ==> scan_bwd(seq_items, flt, ic, start, total) == scan_bwd(
                seq_items,
                flt,
                ic,
                pos as int,
                (len - 1 - k) as nat,
            ),
            found matches Some(j) ==> Some(j as int) == scan_bwd(seq_items, flt, ic, start, total),
        decreases len - k + (if found is None { 1int } else { 0int }),
    {
        let item = &items[pos];
        if item.matches(filter, ic) {
            proof {
                assert(scan_bwd(seq_items, flt, ic, pos as int, (len - 1 - k) as nat) == Some(
                    pos as int,
                ));
            }
            found = Some(pos);
        } else {
            proof {
                assert(scan_bwd(seq_items, flt, ic, pos as int, (len - 1 - k) as nat) == scan_bwd(
                    seq_items,
                    flt,
                    ic,
                    prev_pos(pos as int, len as int),
                    (len - 1 - k - 1) as nat,
                ));
                assert(bwd_pos(start, (k + 1) as nat, len as int) == prev_pos(
                    bwd_pos(start, k as nat, len as int),
                    len as int,
                ));
            }
            pos = if pos > 0 {
                pos - 1
            } else {
                len - 1
            };
            k += 1;
        }
    }
    proof {
        if found is None {
            assert(scan_bwd(seq_items, flt, ic, pos as int, 0nat) is None);
        }
    }
    found
}

/// Find the first match of `filter` in the whole sequence, scanning from
/// the start.
pub fn find_first_match<T: MatchesSearch>(items: &Vec<T>, filter: &str, ic: bool) -> (r: Option<
    usize,
>)
    ensures
        items@.len() <= usize::MAX,
        match first_match(items@, filter@, ic) {
            Some(j) => r == Some(j as usize),
            None => r is None,
        },
{
    let ghost seq_items = items@;
    let ghost flt = filter@;
    let len = items.len();
    let mut k: usize = 0;
    let mut found: Option<usize> = None;
    while k < len && found.is_none()
        invariant
            seq_items == items@,
            flt == filter@,
            len == seq_items.len(),
            k <= len,
            found is None ==> scan_fwd(seq_items, flt, ic, 0, len as nat) == scan_fwd(
                seq_items,
                flt,
                ic,
                k as int,
                (len - k) as nat,
            ),
            found matches Some(j) ==> Some(j as int) == scan_fwd(
                seq_items,
                flt,
                ic,
                0,
                len as nat,
            ),
        decreases len - k + (if found is None { 1int } else { 0int }),
    {
        let item = &items[k];
        if item.matches(filter, ic) {
            proof {
                assert(scan_fwd(seq_items, flt, ic, k as int, (len - k) as nat) == Some(k as int));
            }
            found = Some(k);
        } else {
            proof {
                assert(scan_fwd(seq_items, flt, ic, k as int, (len - k) as nat) == scan_fwd(
                    seq_items,
                    flt,
                    ic,
                    next_pos(k as int, len as int),
                    (len - k - 1) as nat,
                ));
                if k + 1 < len {
                    assert(next_pos(k as int, len as int) == k + 1);
                } else {
                    assert(scan_fwd(
                        seq_items,
                        flt,
                        ic,
                        next_pos(k as int, len as int),
                        0nat,
                    ) is None);
                    assert(scan_fwd(seq_items, flt, ic, (k + 1) as int, 0nat) is None);
                }
            }
            k += 1;
        }
    }
    proof {
        if found is None {
            assert(scan_fwd(seq_items, flt, ic, k as int, 0nat) is None);
        }
    }
    found
}

/// Popping right after pushing returns the pushed frame and restores the
/// stack as it was, except that the filter stays cleared.
pub proof fn lemma_pop_restores_push<T: MatchesSearch>(
    s0: DirStack<T>,
    s1: DirStack<T>,
    s2: DirStack<T>,
    head: Vec<T>,
    r: Option<Frame<T>>,
)
    requires
        s0.wf(),
        push_transition(s0, s1, head),
        pop_transition(s1, s2, r),
    ensures
        r is Some && (r->0).0 == head,
        s2.current == s0.current,
        s2.others@ == s0.others@,
        s2.preview == s0.preview,
        s2.filter_ignore_case == s0.filter_ignore_case,
        s2.filter is None,
{
    assert(s1.others@.len() == s0.others@.len() + 1);
    assert(s1.others@.last() == s0.current);
    assert(s1.others@.drop_last() =~= s0.others@);
}

} // verus!
