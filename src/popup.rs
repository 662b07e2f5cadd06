//! A modal message popup: its visibility, its text and the scroll position of
//! that text, and the geometry of the box it is drawn in.
use vstd::prelude::*;
use crate::scroll::{VerticalScroll, ScrollView, ScrollType, spec_clamp, spec_max_top, spec_moved};

verus! {

/// Whether a handler took an input event for itself.
#[derive(Copy, Clone, Debug, PartialEq, Eq, Structural)]
pub enum EventState {
    Consumed,
    NotConsumed,
}

/// A key press as the popup sees it.
#[derive(Copy, Clone, Debug, PartialEq, Eq, Structural)]
pub enum PopupKey {
    /// The confirm key, which closes the popup.
    Enter,
    /// Scrolls the text one line up.
    Up,
    /// Scrolls the text one line down.
    Down,
    /// Any other key.
    Other,
}

/// A rectangle of terminal cells.
#[derive(Copy, Clone, Debug, PartialEq, Eq, Structural)]
pub struct Area {
    pub x: u16,
    pub y: u16,
    pub width: u16,
    pub height: u16,
}

/// The popup's box and the wrapped lines of its text that are in view.
pub struct PopupLayout {
    pub area: Area,
    pub lines: Vec<String>,
}

/// Height of the popup box, borders included.
pub const POPUP_HEIGHT: u16 = 25;
/// Cells taken by the two borders of the box, across or down.
pub const BORDER_WIDTH: u16 = 2;
/// Narrowest width of the popup box.
pub const MINIMUM_WIDTH: u16 = 60;

/// The pieces of `s` between its `\n` characters, in order: one more piece
/// than there are `\n`s, the last one possibly empty.
pub open spec fn spec_newline_pieces(s: Seq<char>) -> Seq<Seq<char>>
    decreases s.len(),
{
    if s.len() == 0 {
        seq![Seq::empty()]
    } else {
        let rest = spec_newline_pieces(s.drop_last());
        if s.last() == '\n' {
            rest.push(Seq::empty())
        } else {
            rest.update(rest.len() - 1, rest.last().push(s.last()))
        }
    }
}

/// `line` without one `\r` at its end.
pub open spec fn spec_strip_cr(line: Seq<char>) -> Seq<char> {
    if line.len() > 0 && line.last() == '\r' {
        line.drop_last()
    } else {
        line
    }
}

/// What `str::lines` yields for `s`: each line ended by `\n` without that
/// `\n` and without one `\r` before it, then the text after the last `\n`
/// when it is not empty.
pub open spec fn lines_of(s: Seq<char>) -> Seq<Seq<char>> {
    let pieces = spec_newline_pieces(s);
    let ended = pieces.drop_last().map_values(|l: Seq<char>| spec_strip_cr(l));
    if pieces.last().len() == 0 {
        ended
    } else {
        ended.push(pieces.last())
    }
}

/// What bwrap's word wrapping in "may break" style makes of `text` at a
/// width of `max_width` columns.
pub uninterp spec fn wrapped_of(text: Seq<char>, max_width: usize) -> Seq<char>;

/// Relies on `str::lines`: the lines of `s`, split at `\n` or `\r\n`, with
/// no empty line after a final line ending.
#[verifier::external_body]
fn split_lines(s: &str) -> (r: Vec<String>)
    ensures
        r.len() == lines_of(s@).len(),
        forall|i: int| 0 <= i < r.len() ==> #[trigger] r@[i]@ == lines_of(s@)[i],
{
    s.lines().map(String::from).collect()
}

/// Relies on bwrap's `Wrapper::new` and `wrap_use_style` with
/// `WrapStyle::MayBrk(None, None)`: the text with line breaks inserted so
/// that no line is wider than `max_width` columns, words broken where needed.
/// The result depends on the text and the width alone. `new` refuses a width
/// of 0 and nothing else here: at most one break goes in per character and
/// the display width never exceeds the byte length, so a buffer of twice the
/// text's bytes is always large enough.
#[verifier::external_body]
fn wrap_may_break(text: &str, max_width: usize, buffer_len: usize) -> (r: Option<String>)
    requires
        buffer_len >= 2 * text.len(),
    ensures
        r is Some <==> max_width > 0,
        r matches Some(w) ==> w@ == wrapped_of(text@, max_width),
{
    let mut buffer = vec![0u8; buffer_len];
    let wrapped_len = match bwrap::Wrapper::new(text, max_width, &mut buffer) {
        Ok(mut wrapper) => match wrapper.wrap_use_style(bwrap::WrapStyle::MayBrk(None, None)) {
            Ok(n) => n,
            Err(_) => return None,
        },
        Err(_) => return None,
    };
    Some(String::from_utf8_lossy(&buffer[..wrapped_len]).into_owned())
}

/// Number of bytes `line` takes in UTF-8, as `str::len` reports it.
pub open spec fn spec_byte_len(line: Seq<char>) -> usize {
    vstd::utf8::encode_utf8(line).len() as usize
}

/// The largest UTF-8 byte length among `lines`, 0 when there are none.
pub open spec fn spec_max_byte_len(lines: Seq<Seq<char>>) -> usize
    decreases lines.len(),
{
    if lines.len() == 0 {
        0
    } else {
        let rest = spec_max_byte_len(lines.drop_last());
        let last = spec_byte_len(lines.last());
        if last > rest {
            last
        } else {
            rest
        }
    }
}

/// Width of the popup box for text whose longest line has `max_line_len`
/// bytes, on a frame `frame_width` cells wide: room for the text and the
/// borders, at least [`MINIMUM_WIDTH`], at most the frame's width unless the
/// frame is narrower than the minimum.
pub open spec fn spec_popup_width(max_line_len: int, frame_width: int) -> int {
    let max_width = if frame_width > MINIMUM_WIDTH { frame_width } else { MINIMUM_WIDTH as int };
    let wanted = max_line_len + BORDER_WIDTH;
    if wanted < MINIMUM_WIDTH {
        MINIMUM_WIDTH as int
    } else if wanted > max_width {
        max_width
    } else {
        wanted
    }
}

/// Number of text lines the popup shows on a frame `frame_height` cells high.
pub open spec fn spec_popup_text_height(frame_height: int) -> int {
    let inner = if frame_height >= BORDER_WIDTH { frame_height - BORDER_WIDTH } else { 0 };
    if inner < POPUP_HEIGHT - BORDER_WIDTH {
        inner
    } else {
        POPUP_HEIGHT - BORDER_WIDTH
    }
}

/// A box of `width` by `height` cells centred in `r`, cut down to `r`'s size.
pub open spec fn spec_centered(width: u16, height: u16, r: Area) -> Area {
    Area {
        x: (if r.width >= width { (r.width - width) / 2 } else { 0 }) as u16,
        y: (if r.height >= height { (r.height - height) / 2 } else { 0 }) as u16,
        width: if width <= r.width { width } else { r.width },
        height: if height <= r.height { height } else { r.height },
    }
}

/// A box of `width` by `height` cells centred in `r`, cut down to `r`'s size.
pub fn centered_rect_absolute(width: u16, height: u16, r: Area) -> (a: Area)
    ensures
        a == spec_centered(width, height, r),
{
    Area {
        x: r.width.saturating_sub(width) / 2,
        y: r.height.saturating_sub(height) / 2,
        width: if width <= r.width { width } else { r.width },
        height: if height <= r.height { height } else { r.height },
    }
}

/// Width of the popup box for text whose longest line has `max_line_len`
/// bytes, on a frame `frame_width` cells wide.
pub fn popup_width(max_line_len: usize, frame_width: u16) -> (w: u16)
    ensures
        w == spec_popup_width(max_line_len as int, frame_width as int),
{
    let max_width: u16 = if frame_width > MINIMUM_WIDTH { frame_width } else { MINIMUM_WIDTH };
    let wanted = max_line_len.saturating_add(BORDER_WIDTH as usize);
    if wanted < MINIMUM_WIDTH as usize {
        MINIMUM_WIDTH
    } else if wanted > max_width as usize {
        max_width
    } else {
        wanted as u16
    }
}

/// Number of text lines the popup shows on a frame `frame_height` cells high.
pub fn popup_text_height(frame_height: u16) -> (h: u16)
    ensures
        h == spec_popup_text_height(frame_height as int),
{
    let inner = frame_height.saturating_sub(BORDER_WIDTH);
    let most = POPUP_HEIGHT - BORDER_WIDTH;
    if inner < most {
        inner
    } else {
        most
    }
}

/// Title of the popup that reports an error.
pub fn msg_title_error() -> (r: String)
    ensures
        r@ == "Error"@,
{
    "Error".to_owned()
}

/// Title of the popup that lists the key bindings.
pub fn msg_title_key_bindings() -> (r: String)
    ensures
        r@ == "Keybindings"@,
{
    "Keybindings".to_owned()
}

/// The mathematical model of a [`MsgPopup`].
pub struct PopupView {
    pub title: Seq<char>,
    pub msg: Seq<char>,
    pub visible: bool,
    pub scroll: ScrollView,
}

/// The lines `[top, top + height)` of `lines`, cut at the end of `lines`.
pub open spec fn spec_window(lines: Seq<Seq<char>>, top: int, height: int) -> Seq<Seq<char>> {
    lines.subrange(top, if top + height <= lines.len() { top + height } else { lines.len() as int })
}

/// A modal popup that shows a titled message whose text can be scrolled.
pub struct MsgPopup {
    title: String,
    msg: String,
    visible: bool,
    scroll: VerticalScroll,
}

impl View for MsgPopup {
    type V = PopupView;

    closed spec fn view(&self) -> PopupView {
        PopupView { title: self.title@, msg: self.msg@, visible: self.visible, scroll: self.scroll@ }
    }
}

impl MsgPopup {
    /// The text's scroll position lies within its bound.
    pub open spec fn wf(&self) -> bool {
        self@.scroll.top <= self@.scroll.max_top
    }

    /// A hidden popup with no text.
    pub fn new() -> (r: Self)
        ensures
            r.wf(),
            r@.title.len() == 0,
            r@.msg.len() == 0,
            !r@.visible,
            r@.scroll == (ScrollView { top: 0, max_top: 0 }),
    {
        MsgPopup { title: String::new(), msg: String::new(), visible: false, scroll: VerticalScroll::new() }
    }

    /// Whether the popup is shown.
    pub fn is_visible(&self) -> (r: bool)
        ensures
            r == self@.visible,
    {
        self.visible
    }

    /// Closes the popup, keeping its text and scroll position.
    pub fn dismiss(&mut self)
        requires
            old(self).wf(),
        ensures
            final(self).wf(),
            final(self)@ == (PopupView { visible: false, ..old(self)@ }),
    {
        self.visible = false;
    }

    /// Opens the popup as it is.
    pub fn show(&mut self)
        requires
            old(self).wf(),
        ensures
            final(self).wf(),
            final(self)@ == (PopupView { visible: true, ..old(self)@ }),
    {
        self.visible = true;
    }

    /// Opens the popup with a new title and message, scrolled to the first
    /// line.
    pub fn set_new_msg(&mut self, msg: &str, title: String)
        requires
            old(self).wf(),
        ensures
            final(self).wf(),
            final(self)@ == (PopupView {
                title: title@,
                msg: msg@,
                visible: true,
                scroll: ScrollView { top: 0, max_top: old(self)@.scroll.max_top },
            }),
    {
        self.title = title;
        self.msg = msg.to_owned();
        self.scroll.reset();
        self.show()
    }

    /// Opens the popup with `msg` under the error title.
    pub fn show_error(&mut self, msg: &str)
        requires
            old(self).wf(),
        ensures
            final(self).wf(),
            final(self)@ == (PopupView {
                title: "Error"@,
                msg: msg@,
                visible: true,
                scroll: ScrollView { top: 0, max_top: old(self)@.scroll.max_top },
            }),
    {
        self.set_new_msg(msg, msg_title_error())
    }

    /// Opens the popup with `msg` under the key-bindings title.
    pub fn show_key_bindings(&mut self, msg: &str)
        requires
            old(self).wf(),
        ensures
            final(self).wf(),
            final(self)@ == (PopupView {
                title: "Keybindings"@,
                msg: msg@,
                visible: true,
                scroll: ScrollView { top: 0, max_top: old(self)@.scroll.max_top },
            }),
    {
        self.set_new_msg(msg, msg_title_key_bindings())
    }

    /// Handles a key while the popup is shown: the confirm key closes it and
    /// the up and down keys scroll its text by one line. Returns whether the
    /// key was taken; a hidden popup takes nothing.
    pub fn event(&mut self, key: PopupKey) -> (r: EventState)
        requires
            old(self).wf(),
        ensures
            final(self).wf(),
            r == (if old(self)@.visible && key != PopupKey::Other {
                EventState::Consumed
            } else {
                EventState::NotConsumed
            }),
            final(self)@ == (if !old(self)@.visible {
                old(self)@
            } else {
                match key {
                    PopupKey::Enter => PopupView { visible: false, ..old(self)@ },
                    PopupKey::Up => PopupView { scroll: spec_moved(old(self)@.scroll, ScrollType::Up, 1), ..old(self)@ },
                    PopupKey::Down => PopupView {
                        scroll: spec_moved(old(self)@.scroll, ScrollType::Down, 1),
                        ..old(self)@
                    },
                    PopupKey::Other => old(self)@,
                }
            }),
    {
        if !self.visible {
            return EventState::NotConsumed;
        }
        match key {
            PopupKey::Enter => {
                self.dismiss();
                EventState::Consumed
            },
            PopupKey::Up => {
                self.scroll.move_top(ScrollType::Up, 1);
                EventState::Consumed
            },
            PopupKey::Down => {
                self.scroll.move_top(ScrollType::Down, 1);
                EventState::Consumed
            },
            PopupKey::Other => EventState::NotConsumed,
        }
    }

    /// Byte length of the longest line of the message, 0 when it has none.
    pub fn max_line_len(&self) -> (r: usize)
        ensures
            r == spec_max_byte_len(lines_of(self@.msg)),
    {
        let lines = split_lines(self.msg.as_str());
        let ghost ls = lines_of(self@.msg);
        let mut longest: usize = 0;
        let mut i: usize = 0;
        while i < lines.len()
            invariant
                i <= lines.len(),
                lines.len() == ls.len(),
                forall|j: int| 0 <= j < lines.len() ==> #[trigger] lines@[j]@ == ls[j],
                longest == spec_max_byte_len(ls.take(i as int)),
            decreases lines.len() - i,
        {
            let line = lines[i].as_str();
            let n = line.len();
            proof {
                assert(line@ == ls[i as int]);
                assert(n == spec_byte_len(ls[i as int]));
                assert(ls.take(i + 1).drop_last() =~= ls.take(i as int));
                assert(ls.take(i + 1).last() == ls[i as int]);
            }
            if n > longest {
                longest = n;
            }
            i = i + 1;
        }
        proof {
            assert(ls.take(i as int) =~= ls);
        }
        longest
    }

    /// Recomputes the scroll bound for the wrapped message `lines` in a
    /// window of `height` lines, clamps the scroll position into it and
    /// returns the lines in view.
    pub fn scroll_lines(&mut self, lines: &Vec<String>, height: usize) -> (r: Vec<String>)
        requires
            old(self).wf(),
        ensures
            final(self).wf(),
            final(self)@ == (PopupView {
                scroll: ScrollView {
                    top: spec_clamp(
                        old(self)@.scroll.top as int,
                        spec_max_top(lines.len() as int, height as int),
                    ) as nat,
                    max_top: spec_max_top(lines.len() as int, height as int) as nat,
                },
                ..old(self)@
            }),
            r@.map_values(|l: String| l@) == spec_window(
                lines@.map_values(|l: String| l@),
                final(self)@.scroll.top as int,
                height as int,
            ),
    {
        let top = self.scroll.update_no_selection(lines.len(), height);
        let end: usize = if lines.len() - top >= height { top + height } else { lines.len() };
        let ghost all = lines@.map_values(|l: String| l@);
        let mut shown: Vec<String> = Vec::new();
        let mut i: usize = top;
        while i < end
            invariant
                top <= i <= end <= lines.len(),
                all == lines@.map_values(|l: String| l@),
                shown@.map_values(|l: String| l@) =~= all.subrange(top as int, i as int),
            decreases end - i,
        {
            let ghost before = shown@;
            let line = lines[i].clone();
            shown.push(line);
            proof {
                assert(shown@ =~= before.push(lines@[i as int]));
                assert(all[i as int] == lines@[i as int]@);
                assert(shown@.map_values(|l: String| l@) =~= before.map_values(|l: String| l@).push(all[i as int]));
                assert(shown@.map_values(|l: String| l@) =~= all.subrange(top as int, i + 1));
            }
            i = i + 1;
        }
        shown
    }

    /// Lays the shown popup out on a frame: a box wide enough for the
    /// message's longest line, centred on the frame, and the lines of the
    /// message wrapped to the box's inner width that are in view. Returns
    /// `None` when the popup is hidden, when the box has no inner width, or
    /// when the message is longer than half the address space (no `str` is,
    /// but the wrapping buffer takes twice the message's bytes).
    pub fn layout(&mut self, frame: Area) -> (r: Option<PopupLayout>)
        requires
            old(self).wf(),
        ensures
            final(self).wf(),
            !old(self)@.visible ==> r is None && final(self)@ == old(self)@,
            ({
                let area = spec_centered(
                    spec_popup_width(spec_max_byte_len(lines_of(old(self)@.msg)) as int, frame.width as int) as u16,
                    POPUP_HEIGHT,
                    frame,
                );
                let text_width = (if area.width >= BORDER_WIDTH { area.width - BORDER_WIDTH } else { 0 }) as usize;
                let lines = lines_of(wrapped_of(old(self)@.msg, text_width));
                let height = spec_popup_text_height(frame.height as int);
                let max_top = spec_max_top(lines.len() as int, height);
                let top = spec_clamp(old(self)@.scroll.top as int, max_top);
                &&& (r is Some ==> old(self)@.visible && text_width > 0)
                &&& (old(self)@.visible && text_width > 0
                    && vstd::utf8::encode_utf8(old(self)@.msg).len() <= usize::MAX / 2 ==> r is Some)
                &&& r is None ==> final(self)@ == old(self)@
                &&& r matches Some(l) ==> {
                    &&& old(self)@.visible
                    &&& l.area == area
                    &&& final(self)@ == (PopupView {
                        scroll: ScrollView { top: top as nat, max_top: max_top as nat },
                        ..old(self)@
                    })
                    &&& l.lines@.map_values(|x: String| x@) == spec_window(lines, top, height)
                }
            }),
    {
        if !self.visible {
            return None;
        }
        let width = popup_width(self.max_line_len(), frame.width);
        let area = centered_rect_absolute(width, POPUP_HEIGHT, frame);
        let text_width = area.width.saturating_sub(BORDER_WIDTH) as usize;
        let msg_len = self.msg.as_str().len();
        if msg_len > usize::MAX / 2 {
            return None;
        }
        match wrap_may_break(self.msg.as_str(), text_width, 2 * msg_len) {
            None => None,
            Some(wrapped) => {
                let lines = split_lines(wrapped.as_str());
                proof {
                    assert(lines@.map_values(|x: String| x@) =~= lines_of(wrapped@));
                }
                let height = popup_text_height(frame.height) as usize;
                let shown = self.scroll_lines(&lines, height);
                Some(PopupLayout { area, lines: shown })
            },
        }
    }

    /// The popup's title.
    pub fn title(&self) -> (r: &str)
        ensures
            r@ == self@.title,
    {
        self.title.as_str()
    }

    /// The popup's message.
    pub fn msg(&self) -> (r: &str)
        ensures
            r@ == self@.msg,
    {
        self.msg.as_str()
    }

    /// The first visible line of the message.
    pub fn scroll_top(&self) -> (r: usize)
        ensures
            r == self@.scroll.top,
    {
        self.scroll.get_top()
    }

    /// The largest first visible line of the message at the last layout.
    pub fn scroll_max_top(&self) -> (r: usize)
        ensures
            r == self@.scroll.max_top,
    {
        self.scroll.get_max_top()
    }
}

} // verus!
