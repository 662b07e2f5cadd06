//! A clamped vertical scroll position and the auto-follow policy that keeps a
//! selected line inside the visible window.
use vstd::prelude::*;

verus! {

/// A direction in which a scroll position can be moved.
#[derive(Copy, Clone, Debug, PartialEq, Eq, Structural)]
pub enum ScrollType {
    Up,
    Down,
    Home,
    End,
    PageUp,
    PageDown,
}

/// The mathematical model of a [`VerticalScroll`].
pub struct ScrollView {
    /// Index of the first visible line.
    pub top: nat,
    /// Largest legal value of `top`.
    pub max_top: nat,
}

/// The largest legal first line for `content_len` lines shown in a window of
/// `height` lines; nothing can scroll when the window is empty.
pub open spec fn spec_max_top(content_len: int, height: int) -> int {
    if height == 0 || content_len <= height {
        0
    } else {
        content_len - height
    }
}

/// The first visible line that keeps `selection` on screen with the least
/// movement from `current_top`.
pub open spec fn spec_follow_top(current_top: int, height: int, selection: int, selection_max: int) -> int {
    if height == 0 {
        0
    } else if selection_max <= height {
        0
    } else if current_top + height <= selection {
        selection - height + 1
    } else if current_top > selection {
        selection
    } else {
        current_top
    }
}

/// The value `top` is moved towards by `move_type`, before clamping;
/// `page` is the number of lines of one page.
pub open spec fn spec_move_target(s: ScrollView, move_type: ScrollType, page: nat) -> int {
    match move_type {
        ScrollType::Up => s.top - 1int,
        ScrollType::Down => s.top + 1int,
        ScrollType::PageUp => s.top - page as int,
        ScrollType::PageDown => s.top + page as int,
        ScrollType::Home => 0,
        ScrollType::End => s.max_top as int,
    }
}

/// `v` clamped into `[0, hi]`.
pub open spec fn spec_clamp(v: int, hi: int) -> int {
    if v < 0 {
        0
    } else if v > hi {
        hi
    } else {
        v
    }
}

/// The state after moving `s` by `move_type`.
pub open spec fn spec_moved(s: ScrollView, move_type: ScrollType, page: nat) -> ScrollView {
    ScrollView {
        top: spec_clamp(spec_move_target(s, move_type, page), s.max_top as int) as nat,
        max_top: s.max_top,
    }
}

/// The first line after making `[start, end)` visible in a window of `height`
/// lines, preferring to keep `start` visible over `end`.
pub open spec fn spec_area_top(s: ScrollView, height: int, start: int, end: int) -> int {
    if start < s.top {
        start
    } else if end > s.top + height && start > s.top {
        let diff = if start - s.top <= end - (s.top + height) {
            start - s.top
        } else {
            end - (s.top + height)
        };
        if s.top + diff <= s.max_top {
            s.top + diff
        } else {
            s.max_top as int
        }
    } else {
        s.top as int
    }
}

/// The first visible line and its upper bound for one scrollable region.
pub struct VerticalScroll {
    top: usize,
    max_top: usize,
}

impl View for VerticalScroll {
    type V = ScrollView;

    closed spec fn view(&self) -> ScrollView {
        ScrollView { top: self.top as nat, max_top: self.max_top as nat }
    }
}

impl VerticalScroll {
    /// The position never lies past its bound.
    pub open spec fn wf(&self) -> bool {
        self@.top <= self@.max_top
    }

    /// A position at the first line, with nothing to scroll.
    pub fn new() -> (r: Self)
        ensures
            r.wf(),
            r@.top == 0,
            r@.max_top == 0,
    {
        VerticalScroll { top: 0, max_top: 0 }
    }

    /// The first visible line.
    pub fn get_top(&self) -> (r: usize)
        ensures
            r == self@.top,
    {
        self.top
    }

    /// The largest first line allowed by the last bound computation.
    pub fn get_max_top(&self) -> (r: usize)
        ensures
            r == self@.max_top,
    {
        self.max_top
    }

    /// Scrolls back to the first line.
    pub fn reset(&mut self)
        requires
            old(self).wf(),
        ensures
            final(self).wf(),
            final(self)@.top == 0,
            final(self)@.max_top == old(self)@.max_top,
    {
        self.top = 0;
    }

    /// Moves the first visible line by one line, by `page_size` lines, or to
    /// either end, staying within `[0, max_top]`. Returns whether it changed.
    pub fn move_top(&mut self, move_type: ScrollType, page_size: usize) -> (changed: bool)
        requires
            old(self).wf(),
        ensures
            final(self).wf(),
            final(self)@ == spec_moved(old(self)@, move_type, page_size as nat),
            changed == (final(self)@.top != old(self)@.top),
    {
        let old = self.top;
        let max = self.max_top;
        let new_scroll_top: usize = match move_type {
            ScrollType::Down => if old < max { old + 1 } else { max },
            ScrollType::Up => old.saturating_sub(1),
            ScrollType::PageDown => if max - old > page_size { old + page_size } else { max },
            ScrollType::PageUp => old.saturating_sub(page_size),
            ScrollType::Home => 0,
            ScrollType::End => max,
        };
        if new_scroll_top == old {
            return false;
        }
        self.top = new_scroll_top;
        true
    }

    /// Moves the window of `height` lines so that `[start, end)` becomes
    /// visible with the smallest adjustment. When the range is taller than the
    /// window its start is kept in view rather than its end.
    pub fn move_area_to_visible(&mut self, height: usize, start: usize, end: usize)
        requires
            old(self).wf(),
        ensures
            final(self).wf(),
            final(self)@.max_top == old(self)@.max_top,
            final(self)@.top == spec_area_top(old(self)@, height as int, start as int, end as int),
    {
        let top = self.top;
        let max_top = self.max_top;
        // the top of some content is hidden
        if start < top {
            self.top = start;
            return;
        }
        // the bottom of some content is hidden and there is visible space available
        if end > top && end - top > height && start > top {
            let avail_space = start - top;
            let hidden = end - top - height;
            let diff = if avail_space <= hidden { avail_space } else { hidden };
            self.top = if diff <= max_top - top { top + diff } else { max_top };
        }
    }

    /// Scrolls so that `selection` stays visible in a window of
    /// `visual_height` lines over `selection_max` lines, then recomputes the
    /// bound and clamps into it. Returns the new first visible line.
    pub fn update(&mut self, selection: usize, selection_max: usize, visual_height: usize) -> (r: usize)
        requires
            old(self).wf(),
        ensures
            final(self).wf(),
            final(self)@.max_top == spec_max_top(selection_max as int, visual_height as int),
            final(self)@.top == spec_clamp(
                spec_follow_top(old(self)@.top as int, visual_height as int, selection as int, selection_max as int),
                final(self)@.max_top as int,
            ),
            r == final(self)@.top,
    {
        let new_top = calc_scroll_top(self.top, visual_height, selection, selection_max);
        let new_max = if visual_height == 0 {
            0
        } else {
            selection_max.saturating_sub(visual_height)
        };
        self.max_top = new_max;
        self.top = if new_top <= new_max { new_top } else { new_max };
        self.top
    }

    /// Recomputes the bound for `line_count` lines in a window of
    /// `visual_height` lines and clamps the current first line into it.
    /// Returns the new first visible line.
    pub fn update_no_selection(&mut self, line_count: usize, visual_height: usize) -> (r: usize)
        requires
            old(self).wf(),
        ensures
            final(self).wf(),
            final(self)@.max_top == spec_max_top(line_count as int, visual_height as int),
            final(self)@.top == spec_clamp(old(self)@.top as int, final(self)@.max_top as int),
            r == final(self)@.top,
    {
        let top = self.top;
        self.update(top, line_count, visual_height)
    }
}

/// When the selection already lies inside the window
/// `[current_top, current_top + visible_height)`, the follow policy leaves
/// the first visible line where it is, unless all content fits on screen
/// and a scrolled window snaps back to the first line.
pub proof fn lemma_follow_keeps_visible_selection(
    current_top: nat,
    visible_height: nat,
    selection: nat,
    selection_max: nat,
)
    requires
        current_top <= selection < current_top + visible_height,
        selection_max > visible_height || current_top == 0,
    ensures
        spec_follow_top(current_top as int, visible_height as int, selection as int, selection_max as int)
            == current_top,
{
}

/// After a follow update over `selection_max` lines, a selection below
/// `selection_max` lies inside the new window of `visual_height` lines.
pub proof fn lemma_update_shows_selection(
    s: ScrollView,
    selection: nat,
    selection_max: nat,
    visual_height: nat,
)
    requires
        s.top <= s.max_top,
        selection < selection_max,
        visual_height > 0,
    ensures
        ({
            let max_top = spec_max_top(selection_max as int, visual_height as int);
            let top = spec_clamp(
                spec_follow_top(s.top as int, visual_height as int, selection as int, selection_max as int),
                max_top,
            );
            top <= selection < top + visual_height
        }),
{
}

/// Moving to the first line twice gives the same state as moving there once,
/// and likewise for the last line.
pub proof fn lemma_home_end_idempotent(s: ScrollView, page: nat)
    requires
        s.top <= s.max_top,
    ensures
        spec_moved(spec_moved(s, ScrollType::Home, page), ScrollType::Home, page)
            == spec_moved(s, ScrollType::Home, page),
        spec_moved(spec_moved(s, ScrollType::End, page), ScrollType::End, page)
            == spec_moved(s, ScrollType::End, page),
{
}

/// Every move keeps the first visible line within `[0, max_top]`, and every
/// bound recomputation leaves it there too, so the invariant holds after
/// any sequence of such calls.
pub proof fn lemma_bounds_preserved(s: ScrollView, move_type: ScrollType, page: nat, content_len: nat, height: nat)
    requires
        s.top <= s.max_top,
    ensures
        spec_moved(s, move_type, page).top <= spec_moved(s, move_type, page).max_top,
        0 <= spec_clamp(s.top as int, spec_max_top(content_len as int, height as int))
            <= spec_max_top(content_len as int, height as int),
{
}

/// The first visible line that keeps `selection` inside a window of
/// `height_in_lines` lines over `selection_max` lines, moving as little as
/// possible from `current_top`.
pub fn calc_scroll_top(current_top: usize, height_in_lines: usize, selection: usize, selection_max: usize) -> (r: usize)
    ensures
        r == spec_follow_top(current_top as int, height_in_lines as int, selection as int, selection_max as int),
{
    if height_in_lines == 0 {
        return 0;
    }
    if selection_max <= height_in_lines {
        return 0;
    }
    if height_in_lines <= selection && current_top <= selection - height_in_lines {
        selection - height_in_lines + 1
    } else if current_top > selection {
        selection
    } else {
        current_top
    }
}

} // verus!
