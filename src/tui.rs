//! The dashboard's list state: a selection cursor over the process table, the
//! table's scroll position, and the scroll state of the process-details pane.
use vstd::prelude::*;
use vstd::arithmetic::div_mod::lemma_div_decreases;
use vstd::string::StrSliceExecFns;
use crate::scroll::{VerticalScroll, ScrollView, spec_clamp, spec_follow_top, spec_max_top};

verus! {

/// The mathematical model of a [`Tui`].
pub struct TuiView {
    /// The highlighted row, if any.
    pub selected: Option<nat>,
    /// Number of rows in the process table.
    pub number_of_items: nat,
    /// Scroll position of the process table.
    pub table_scroll: ScrollView,
    /// First visible line of the details pane.
    pub details_offset: nat,
    /// Number of lines the details pane holds for the selected process.
    pub details_lines: nat,
    /// Message shown in the status line, if any.
    pub error_message: Option<Seq<char>>,
}

/// The row selected after stepping `step` rows forward from `i` in a list of
/// `count` rows: past the end it wraps to the first row.
pub open spec fn spec_next_index(i: nat, count: nat, step: nat) -> nat {
    if i + step >= count {
        0
    } else {
        i + step
    }
}

/// The row selected after stepping `step` rows back from `i`: before the
/// start it stops at the first row.
pub open spec fn spec_previous_index(i: nat, step: nat) -> nat {
    if i >= step {
        (i - step) as nat
    } else {
        0
    }
}

/// `n / w` rounded up.
pub open spec fn spec_ceil_div(n: nat, w: nat) -> nat
    recommends
        w > 0,
{
    if n % w == 0 {
        n / w
    } else {
        n / w + 1
    }
}

/// Number of lines the details pane holds: a placeholder line when nothing is
/// selected, otherwise a summary line, a command line and the argument text
/// wrapped at `content_width` characters (a width of 0 counts as 1).
pub open spec fn spec_details_lines(args_len: Option<nat>, content_width: nat) -> nat {
    match args_len {
        None => 1,
        Some(n) => spec_ceil_div(n, if content_width == 0 { 1 } else { content_width }) + 2,
    }
}

/// The state after stepping the selection forward by `step` rows.
pub open spec fn spec_select_next(v: TuiView, step: nat) -> TuiView {
    match v.selected {
        None => v,
        Some(i) => TuiView {
            selected: Some(spec_next_index(i, v.number_of_items, step)),
            details_offset: 0,
            ..v
        },
    }
}

/// The state after stepping the selection back by `step` rows.
pub open spec fn spec_select_previous(v: TuiView, step: nat) -> TuiView {
    match v.selected {
        None => v,
        Some(i) => TuiView { selected: Some(spec_previous_index(i, step)), details_offset: 0, ..v },
    }
}

/// The state after the table is replaced by one of `n` rows.
pub open spec fn spec_replace_list(v: TuiView, n: nat) -> TuiView {
    TuiView { selected: if n == 0 { None } else { Some(0) }, number_of_items: n, ..v }
}

/// The selection and the table's scroll position agree with the table.
pub open spec fn spec_view_wf(v: TuiView) -> bool {
    &&& (v.selected is None <==> v.number_of_items == 0)
    &&& (v.selected matches Some(i) ==> i < v.number_of_items)
    &&& v.table_scroll.top <= v.table_scroll.max_top
}

/// Selection and scroll state of the process table and the details pane.
pub struct Tui {
    selected: Option<usize>,
    number_of_items: usize,
    table_scroll: VerticalScroll,
    details_scroll_offset: usize,
    details_number_of_lines: usize,
    error_message: Option<&'static str>,
}

impl View for Tui {
    type V = TuiView;

    closed spec fn view(&self) -> TuiView {
        TuiView {
            selected: match self.selected {
                Some(i) => Some(i as nat),
                None => None,
            },
            number_of_items: self.number_of_items as nat,
            table_scroll: self.table_scroll@,
            details_offset: self.details_scroll_offset as nat,
            details_lines: self.details_number_of_lines as nat,
            error_message: match self.error_message {
                Some(m) => Some(m@),
                None => None,
            },
        }
    }
}

impl Tui {
    /// The selection points at a row of the table exactly when it is not empty.
    pub open spec fn wf(&self) -> bool {
        spec_view_wf(self@)
    }

    /// An empty table with nothing selected and nothing scrolled.
    pub fn new() -> (r: Self)
        ensures
            r.wf(),
            r@.selected is None,
            r@.number_of_items == 0,
            r@.table_scroll == (ScrollView { top: 0, max_top: 0 }),
            r@.details_offset == 0,
            r@.details_lines == 0,
            r@.error_message is None,
    {
        Tui {
            selected: None,
            number_of_items: 0,
            table_scroll: VerticalScroll::new(),
            details_scroll_offset: 0,
            details_number_of_lines: 0,
            error_message: None,
        }
    }

    /// Moves the selection `step_size` rows forward, wrapping to the first
    /// row when it would pass the end, and scrolls the details pane back to
    /// its first line. Does nothing on an empty table.
    pub fn select_next_row(&mut self, step_size: usize)
        requires
            old(self).wf(),
        ensures
            final(self).wf(),
            final(self)@ == spec_select_next(old(self)@, step_size as nat),
    {
        match self.selected {
            None => {},
            Some(i) => {
                let next: usize = if step_size >= self.number_of_items - i {
                    0
                } else {
                    i + step_size
                };
                self.selected = Some(next);
                self.details_scroll_offset = 0;
            },
        }
    }

    /// Moves the selection `step_size` rows back, stopping at the first row,
    /// and scrolls the details pane back to its first line. Does nothing on
    /// an empty table.
    pub fn select_previous_row(&mut self, step_size: usize)
        requires
            old(self).wf(),
        ensures
            final(self).wf(),
            final(self)@ == spec_select_previous(old(self)@, step_size as nat),
    {
        match self.selected {
            None => {},
            Some(i) => {
                self.selected = Some(i.saturating_sub(step_size));
                self.details_scroll_offset = 0;
            },
        }
    }

    /// Scrolls the details pane one line down while more than
    /// `area_content_height` lines remain below its first visible line.
    pub fn process_details_down(&mut self, area_content_height: usize)
        requires
            old(self).wf(),
        ensures
            final(self).wf(),
            final(self)@ == (TuiView {
                details_offset: if old(self)@.details_lines - old(self)@.details_offset > area_content_height
                    && old(self)@.details_offset < usize::MAX {
                    old(self)@.details_offset + 1
                } else {
                    old(self)@.details_offset
                },
                ..old(self)@
            }),
    {
        let content_scrolled = self.details_number_of_lines.saturating_sub(self.details_scroll_offset);
        if content_scrolled > area_content_height {
            self.details_scroll_offset = self.details_scroll_offset.saturating_add(1);
        }
    }

    /// Scrolls the details pane one line up, stopping at the first line.
    pub fn process_details_up(&mut self)
        requires
            old(self).wf(),
        ensures
            final(self).wf(),
            final(self)@ == (TuiView {
                details_offset: if old(self)@.details_offset > 0 {
                    (old(self)@.details_offset - 1) as nat
                } else {
                    0
                },
                ..old(self)@
            }),
    {
        self.details_scroll_offset = self.details_scroll_offset.saturating_sub(1);
    }

    /// Scrolls the details pane back to its first line.
    pub fn reset_process_details_scroll(&mut self)
        requires
            old(self).wf(),
        ensures
            final(self).wf(),
            final(self)@ == (TuiView { details_offset: 0, ..old(self)@ }),
    {
        self.details_scroll_offset = 0;
    }

    /// Recomputes how many lines the details pane holds for the selected
    /// process, given its argument text (`None` when no process is selected)
    /// and the pane's content width in characters. The offset is left as it
    /// is.
    pub fn update_process_details_number_of_lines(&mut self, content_width: usize, selected_args: Option<&str>)
        requires
            old(self).wf(),
        ensures
            final(self).wf(),
            final(self)@ == (TuiView {
                details_lines: if spec_details_lines(
                    match selected_args {
                        Some(a) => Some(a@.len()),
                        None => None,
                    },
                    content_width as nat,
                ) <= usize::MAX {
                    spec_details_lines(
                        match selected_args {
                            Some(a) => Some(a@.len()),
                            None => None,
                        },
                        content_width as nat,
                    )
                } else {
                    usize::MAX as nat
                },
                ..old(self)@
            }),
    {
        match selected_args {
            Some(args) => {
                let n = args.unicode_len();
                let w: usize = if content_width == 0 { 1 } else { content_width };
                let args_lines: usize = if n % w == 0 {
                    n / w
                } else {
                    proof {
                        assert(w != 1) by (nonlinear_arith)
                            requires n % w != 0;
                        assert(n != 0) by (nonlinear_arith)
                            requires n % w != 0, w > 0;
                        lemma_div_decreases(n as int, w as int);
                    }
                    n / w + 1
                };
                self.details_number_of_lines = args_lines.saturating_add(2);
            },
            None => {
                self.details_number_of_lines = 1;
            },
        }
    }

    /// The highlighted row, if any.
    pub fn get_selected_row_index(&self) -> (r: Option<usize>)
        ensures
            r matches Some(i) ==> self@.selected == Some(i as nat),
            r is None ==> self@.selected is None,
    {
        self.selected
    }

    /// Replaces the table by one of `number_of_items` rows and selects its
    /// first row, or nothing when it is empty.
    pub fn update_process_table_number_of_items(&mut self, number_of_items: usize)
        requires
            old(self).wf(),
        ensures
            final(self).wf(),
            final(self)@ == spec_replace_list(old(self)@, number_of_items as nat),
    {
        self.number_of_items = number_of_items;
        if number_of_items == 0 {
            self.selected = None;
        } else {
            self.selected = Some(0);
        }
    }

    /// Scrolls the table so that the selected row stays visible in a window
    /// of `visible_height` rows, moving as little as possible, and returns
    /// the first visible row.
    pub fn process_table_top(&mut self, visible_height: usize) -> (r: usize)
        requires
            old(self).wf(),
        ensures
            final(self).wf(),
            final(self)@ == (TuiView { table_scroll: final(self)@.table_scroll, ..old(self)@ }),
            final(self)@.table_scroll.max_top == spec_max_top(
                old(self)@.number_of_items as int,
                visible_height as int,
            ),
            final(self)@.table_scroll.top == spec_clamp(
                spec_follow_top(
                    old(self)@.table_scroll.top as int,
                    visible_height as int,
                    match old(self)@.selected {
                        Some(i) => i as int,
                        None => 0,
                    },
                    old(self)@.number_of_items as int,
                ),
                final(self)@.table_scroll.max_top as int,
            ),
            r == final(self)@.table_scroll.top,
    {
        let selection: usize = match self.selected {
            Some(i) => i,
            None => 0,
        };
        self.table_scroll.update(selection, self.number_of_items, visible_height)
    }

    /// Number of rows in the process table.
    pub fn number_of_items(&self) -> (r: usize)
        ensures
            r == self@.number_of_items,
    {
        self.number_of_items
    }

    /// First visible line of the details pane.
    pub fn process_details_scroll_offset(&self) -> (r: usize)
        ensures
            r == self@.details_offset,
    {
        self.details_scroll_offset
    }

    /// Number of lines the details pane holds.
    pub fn process_details_number_of_lines(&self) -> (r: usize)
        ensures
            r == self@.details_lines,
    {
        self.details_number_of_lines
    }

    /// Shows `message` in the status line.
    pub fn set_error_message(&mut self, message: &'static str)
        requires
            old(self).wf(),
        ensures
            final(self).wf(),
            final(self)@ == (TuiView { error_message: Some(message@), ..old(self)@ }),
    {
        self.error_message = Some(message);
    }

    /// Clears the status line.
    pub fn reset_error_message(&mut self)
        requires
            old(self).wf(),
        ensures
            final(self).wf(),
            final(self)@ == (TuiView { error_message: None, ..old(self)@ }),
    {
        self.error_message = None;
    }

    /// The message shown in the status line, if any.
    pub fn error_message(&self) -> (r: Option<&'static str>)
        ensures
            r matches Some(m) ==> self@.error_message == Some(m@),
            r is None ==> self@.error_message is None,
    {
        self.error_message
    }
}

/// After the table is replaced by an empty one nothing is selected, and
/// stepping the selection either way then changes nothing.
pub proof fn lemma_empty_list_is_inert(v: TuiView, step: nat)
    ensures
        spec_replace_list(v, 0).selected is None,
        spec_select_next(spec_replace_list(v, 0), step) == spec_replace_list(v, 0),
        spec_select_previous(spec_replace_list(v, 0), step) == spec_replace_list(v, 0),
{
}

/// Stepping forward past the end lands on the first row, while stepping back
/// past the start stops at the first row instead of wrapping to the last.
pub proof fn lemma_wrap_asymmetry(i: nat, count: nat, step: nat)
    requires
        i < count,
    ensures
        i + step >= count ==> spec_next_index(i, count, step) == 0,
        i + step < count ==> spec_next_index(i, count, step) == i + step,
        step > i ==> spec_previous_index(i, step) == 0,
        spec_previous_index(i, step) < count,
{
}

} // verus!
