//! The editor state: buffer, cursor, viewport and session flags, and the
//! mapping from buffer coordinates to screen coordinates.
use vstd::prelude::*;

use crate::buffer::{line_views, Buffer};
use crate::settings::Settings;
use crate::text::{
    cluster_count, clusters_of, columns, graphemes, lemma_clusters_len, width_of, MAX_COLUMN,
};

verus! {

/// The two input modes.
#[derive(Clone, Copy, Debug, PartialEq, Eq, Structural)]
pub enum Mode {
    Command,
    Insert,
}

pub open spec fn mode_name(m: Mode) -> Seq<char> {
    match m {
        Mode::Command => "COMMAND"@,
        Mode::Insert => "INSERT"@,
    }
}

impl Mode {
    /// The name shown in the status bar.
    pub fn name(&self) -> (r: String)
        ensures
            r@ == mode_name(*self),
    {
        match *self {
            Mode::Command => "COMMAND".to_owned(),
            Mode::Insert => "INSERT".to_owned(),
        }
    }
}

/// The number of decimal digits of `n`.
pub open spec fn digit_count(n: nat) -> nat
    decreases n,
{
    if n < 10 {
        1
    } else {
        1 + digit_count(n / 10)
    }
}

/// The screen column of the first character of a line, for a buffer of
/// `len` lines: the gutter holds the digits of `len + 1` and two columns more.
pub open spec fn gutter_start(len: nat) -> nat {
    digit_count(len + 1) + 2
}

/// The number of screen rows that show buffer lines, on a terminal `height` rows high.
pub open spec fn rows(height: u16) -> nat {
    if height > 3 {
        (height - 3) as nat
    } else {
        1
    }
}

/// A cursor column `c` held to a line of `n` clusters and to what a `usize` holds.
pub open spec fn fit_col(c: int, n: int) -> int {
    vstd::math::min(vstd::math::min(c, n + 1), usize::MAX as int)
}

/// The editor: one buffer, its cursor and viewport, and the session flags.
pub struct Editor {
    pub width: u16,
    pub height: u16,
    pub buffer: Buffer,
    /// The cursor's line, from 1.
    pub current_line: usize,
    /// The cursor's position in its line, in grapheme clusters, from 1.
    pub current_char: usize,
    /// The first buffer line on screen.
    pub top_line: usize,
    /// The cursor's screen column.
    pub x: u16,
    /// The cursor's screen row.
    pub y: u16,
    pub mode: Mode,
    /// The current file; empty when there is none.
    pub file_name: String,
    pub settings: Settings,
    /// Cleared when the editor is to stop.
    pub running: bool,
    /// Set by every edit, cleared by a load or a successful save.
    pub modified: bool,
    /// Set when the view scrolled, so that the line numbers are repainted.
    pub top_line_changed: bool,
    /// The number of repaints that keep the message on the status bar.
    pub keep_bar: usize,
}

impl Editor {
    /// Line `n` (from 1) of the buffer.
    pub open spec fn line(&self, n: int) -> Seq<char> {
        self.buffer@[n - 1]
    }

    /// The clusters of the cursor's line.
    pub open spec fn cur_clusters(&self) -> Seq<Seq<char>> {
        clusters_of(self.line(self.current_line as int))
    }

    /// The cursor and viewport invariants.
    pub open spec fn cursor_ok(&self) -> bool {
        &&& self.buffer@.len() >= 1
        &&& 1 <= self.current_line <= self.buffer@.len()
        &&& 1 <= self.current_char <= cluster_count(self.line(self.current_line as int)) + 1
        &&& 1 <= self.top_line <= self.current_line
        &&& self.current_line < self.top_line + rows(self.height)
    }

    /// The screen column of the cursor.
    pub open spec fn spec_x(&self) -> int {
        vstd::math::min(
            (gutter_start(self.buffer@.len()) + columns(
                self.cur_clusters().take(self.current_char - 1),
                self.settings.tab_width as nat,
            )) as int,
            MAX_COLUMN as int,
        )
    }

    /// The screen row of the cursor.
    pub open spec fn spec_y(&self) -> int {
        self.current_line - self.top_line + 1
    }

    /// The invariants, and the screen position that they determine.
    pub open spec fn wf(&self) -> bool {
        &&& self.cursor_ok()
        &&& self.x == self.spec_x()
        &&& self.y == self.spec_y()
    }

    /// Everything but the cursor, the viewport and the screen position is as in `other`.
    pub open spec fn same_content(&self, other: &Editor) -> bool {
        &&& self.buffer@ == other.buffer@
        &&& self.width == other.width
        &&& self.height == other.height
        &&& self.mode == other.mode
        &&& self.file_name@ == other.file_name@
        &&& self.settings == other.settings
        &&& self.running == other.running
        &&& self.modified == other.modified
        &&& self.keep_bar == other.keep_bar
    }

    /// Everything but the buffer, the modified flag, the cursor, the viewport
    /// and the screen position is as in `other`.
    pub open spec fn same_session(&self, other: &Editor) -> bool {
        &&& self.width == other.width
        &&& self.height == other.height
        &&& self.mode == other.mode
        &&& self.file_name@ == other.file_name@
        &&& self.settings == other.settings
        &&& self.running == other.running
        &&& self.keep_bar == other.keep_bar
    }

    /// The viewport is unchanged.
    pub open spec fn same_view(&self, other: &Editor) -> bool {
        &&& self.top_line == other.top_line
        &&& self.top_line_changed == other.top_line_changed
    }

    /// A new editor on a terminal of the given size, with one empty line.
    pub fn new(width: u16, height: u16) -> (r: Self)
        ensures
            r.wf(),
            r.buffer@ == seq![Seq::<char>::empty()],
            r.width == width,
            r.height == height,
            r.current_line == 1,
            r.current_char == 1,
            r.top_line == 1,
            r.mode == Mode::Command,
            r.file_name@.len() == 0,
            r.settings.tab_width == 4,
            r.running,
            !r.modified,
    {
        let mut e = Self {
            width,
            height,
            buffer: Buffer::new(true),
            current_line: 1,
            current_char: 1,
            top_line: 1,
            x: 1,
            y: 1,
            mode: Mode::Command,
            file_name: String::new(),
            settings: Settings::new(),
            running: true,
            modified: false,
            top_line_changed: true,
            keep_bar: 0,
        };
        // The empty line has no clusters, so the cursor is at its end.
        let clusters = e.line_clusters(1);
        proof {
            lemma_clusters_len(line_views(clusters@));
        }
        e.sync_screen();
        e
    }

    /// The clusters of line `n`.
    pub(crate) fn line_clusters(&self, n: usize) -> (r: Vec<String>)
        requires
            1 <= n <= self.buffer@.len(),
        ensures
            line_views(r@) == clusters_of(self.line(n as int)),
            line_views(r@).flatten() == self.line(n as int),
            forall|i: int| 0 <= i < r@.len() ==> (#[trigger] r@[i])@.len() > 0,
    {
        match self.buffer.get(n) {
            Some(l) => graphemes(l.as_str()),
            None => Vec::new(),
        }
    }

    /// The number of screen rows that show buffer lines.
    pub fn text_rows(&self) -> (r: usize)
        ensures
            r == rows(self.height),
    {
        if self.height > 3 {
            (self.height - 3) as usize
        } else {
            1
        }
    }

    /// Sets the screen position from the cursor and the viewport.
    pub(crate) fn sync_screen(&mut self)
        requires
            old(self).cursor_ok(),
        ensures
            final(self).wf(),
            final(self).same_content(old(self)),
            final(self).same_view(old(self)),
            final(self).current_line == old(self).current_line,
            final(self).current_char == old(self).current_char,
    {
        let clusters = self.line_clusters(self.current_line);
        let w = width_of(&clusters, self.current_char - 1, self.settings.tab_width);
        let sx = self.start_x();
        self.x = if w >= MAX_COLUMN - sx {
            MAX_COLUMN
        } else {
            sx + w
        };
        self.y = (self.current_line - self.top_line + 1) as u16;
    }

    /// Puts `top_line` first on screen; the cursor must stay in view.
    pub fn set_top_line(&mut self, top_line: usize)
        requires
            old(self).wf(),
            1 <= top_line <= old(self).current_line,
            old(self).current_line < top_line + rows(old(self).height),
        ensures
            final(self).wf(),
            final(self).same_content(old(self)),
            final(self).current_line == old(self).current_line,
            final(self).current_char == old(self).current_char,
            final(self).top_line == top_line,
            final(self).top_line_changed,
    {
        self.top_line = top_line;
        self.top_line_changed = true;
        self.sync_screen();
    }

    /// Moves the cursor one cluster left, unless it is at the start of its line.
    pub fn move_cursor_left(&mut self)
        requires
            old(self).wf(),
        ensures
            moved_left(*old(self), *final(self)),
    {
        if self.current_char > 1 {
            self.current_char = self.current_char - 1;
        }
        self.sync_screen();
    }

    /// Moves the cursor one cluster right, up to just past the end of its line.
    pub fn move_cursor_right(&mut self)
        requires
            old(self).wf(),
        ensures
            moved_right(*old(self), *final(self)),
    {
        let clusters = self.line_clusters(self.current_line);
        self.current_char = clamp_col(step(self.current_char), clusters.len());
        self.sync_screen();
    }

    /// Moves the cursor one line up, unless it is on the first line. The
    /// column is held to the new line's length; the view scrolls by one line
    /// when the cursor would leave it.
    pub fn move_cursor_up(&mut self)
        requires
            old(self).wf(),
        ensures
            moved_up(*old(self), *final(self)),
    {
        if self.current_line > 1 {
            let to = self.current_line - 1;
            if to < self.top_line {
                self.top_line = self.top_line - 1;
                self.top_line_changed = true;
            }
            let clusters = self.line_clusters(to);
            self.current_char = clamp_col(self.current_char, clusters.len());
            self.current_line = to;
        }
        self.sync_screen();
    }

    /// Moves the cursor one line down, unless it is on the last line. The
    /// column is held to the new line's length; the view scrolls by one line
    /// when the cursor would leave it.
    pub fn move_cursor_down(&mut self)
        requires
            old(self).wf(),
        ensures
            moved_down(*old(self), *final(self)),
    {
        if self.current_line < self.buffer.len() {
            let to = self.current_line + 1;
            self.scroll_to_show(to);
            let clusters = self.line_clusters(to);
            self.current_char = clamp_col(self.current_char, clusters.len());
            self.current_line = to;
        }
        self.sync_screen();
    }

    /// Moves the cursor to the start of the line below, unless it is on the
    /// last line; the view scrolls by one line when the cursor would leave it.
    pub fn move_cursor_new_line(&mut self)
        requires
            old(self).wf(),
        ensures
            moved_new_line(*old(self), *final(self)),
    {
        if self.current_line < self.buffer.len() {
            let to = self.current_line + 1;
            self.scroll_to_show(to);
            self.current_char = 1;
            self.current_line = to;
        }
        self.sync_screen();
    }

    /// Moves the cursor just past the end of its line.
    pub fn move_cursor_eocl(&mut self)
        requires
            old(self).wf(),
        ensures
            moved_eocl(*old(self), *final(self)),
    {
        let clusters = self.line_clusters(self.current_line);
        let n = clusters.len();
        self.current_char = clamp_col(step(n), n);
        self.sync_screen();
    }

    /// Scrolls down by one line where line `to`, the one below the cursor,
    /// would be past the bottom of the view.
    pub(crate) fn scroll_to_show(&mut self, to: usize)
        requires
            old(self).cursor_ok(),
            to == old(self).current_line + 1,
        ensures
            final(self).same_content(old(self)),
            final(self).current_line == old(self).current_line,
            final(self).current_char == old(self).current_char,
            final(self).top_line == (if to == old(self).top_line + rows(old(self).height) {
                old(self).top_line + 1
            } else {
                old(self).top_line as int
            }),
            final(self).top_line_changed == (old(self).top_line_changed || to
                == old(self).top_line + rows(old(self).height)),
            final(self).top_line <= to < final(self).top_line + rows(final(self).height),
            final(self).top_line >= 1,
    {
        let rows_shown = self.text_rows();
        if to - self.top_line >= rows_shown {
            self.top_line = self.top_line + 1;
            self.top_line_changed = true;
        }
    }

    /// Adds `line` after the last line; the cursor stays where it is.
    pub fn append_line(&mut self, line: String)
        requires
            old(self).wf(),
        ensures
            final(self).wf(),
            final(self).buffer@ == old(self).buffer@.push(line@),
            final(self).same_session(old(self)),
            final(self).same_view(old(self)),
            final(self).modified,
            final(self).current_line == old(self).current_line,
            final(self).current_char == old(self).current_char,
    {
        self.buffer.push(line);
        self.modified = true;
        self.sync_screen();
    }

    /// The first buffer line on screen.
    pub fn top_line(&self) -> (r: usize)
        ensures
            r == self.top_line,
    {
        self.top_line
    }

    /// The screen column of the first character of a line: past the line
    /// numbers and their padding.
    pub fn start_x(&self) -> (r: u16)
        ensures
            r == gutter_start(self.buffer@.len()),
    {
        let n: u128 = self.buffer.len() as u128 + 1;
        let d = digits(n);
        d + 2
    }
}

proof fn lemma_digit_count_mono(a: nat, b: nat)
    requires
        a <= b,
    ensures
        digit_count(a) <= digit_count(b),
    decreases b,
{
    if a >= 10 {
        lemma_digit_count_mono(a / 10, b / 10);
    }
}

/// The number of decimal digits of `n`.
fn digits(n: u128) -> (r: u16)
    ensures
        r == digit_count(n as nat),
        r <= 39,
{
    proof {
        lemma_digit_count_mono(n as nat, u128::MAX as nat);
        reveal_with_fuel(digit_count, 40);
        assert(digit_count(u128::MAX as nat) == 39);
    }
    let mut d: u16 = 1;
    let mut m = n;
    while m >= 10
        invariant
            d as nat + digit_count(m as nat) == digit_count(n as nat) + 1,
            digit_count(n as nat) <= 39,
            d >= 1,
        decreases m,
    {
        m = m / 10;
        d = d + 1;
    }
    d
}

/// The cursor went one cluster left, unless it was at the start of its line.
pub open spec fn moved_left(o: Editor, f: Editor) -> bool {
    &&& f.wf()
    &&& f.same_content(&o)
    &&& f.same_view(&o)
    &&& f.current_line == o.current_line
    &&& f.current_char == (if o.current_char > 1 {
        o.current_char - 1
    } else {
        1
    })
}

/// The cursor went one cluster right, up to just past the end of its line.
pub open spec fn moved_right(o: Editor, f: Editor) -> bool {
    &&& f.wf()
    &&& f.same_content(&o)
    &&& f.same_view(&o)
    &&& f.current_line == o.current_line
    &&& f.current_char == fit_col(
        o.current_char + 1,
        cluster_count(o.line(o.current_line as int)) as int,
    )
}

/// The cursor went one line up, with the view scrolled where it would have left it.
pub open spec fn moved_up(o: Editor, f: Editor) -> bool {
    &&& f.wf()
    &&& f.same_content(&o)
    &&& o.current_line > 1 ==> {
        &&& f.current_line == o.current_line - 1
        &&& f.current_char == fit_col(
            o.current_char as int,
            cluster_count(o.line(o.current_line - 1)) as int,
        )
        &&& f.top_line == (if o.current_line == o.top_line {
            o.top_line - 1
        } else {
            o.top_line as int
        })
        &&& f.top_line_changed == (o.top_line_changed
            || o.current_line == o.top_line)
    }
    &&& o.current_line == 1 ==> f.current_line == o.current_line
        && f.current_char == o.current_char
        && f.same_view(&o)
}

/// The cursor went one line down, with the view scrolled where it would have left it.
pub open spec fn moved_down(o: Editor, f: Editor) -> bool {
    &&& f.wf()
    &&& f.same_content(&o)
    &&& o.current_line < o.buffer@.len() ==> {
        &&& f.current_line == o.current_line + 1
        &&& f.current_char == fit_col(
            o.current_char as int,
            cluster_count(o.line(o.current_line + 1)) as int,
        )
        &&& f.top_line == (if o.current_line + 1 == o.top_line
            + rows(o.height) {
            o.top_line + 1
        } else {
            o.top_line as int
        })
        &&& f.top_line_changed == (o.top_line_changed
            || o.current_line + 1 == o.top_line + rows(o.height))
    }
    &&& o.current_line == o.buffer@.len() ==> f.current_line
        == o.current_line && f.current_char == o.current_char
        && f.same_view(&o)
}

/// The cursor went to the start of the line below, with the view scrolled where it
/// would have left it.
pub open spec fn moved_new_line(o: Editor, f: Editor) -> bool {
    &&& f.wf()
    &&& f.same_content(&o)
    &&& o.current_line < o.buffer@.len() ==> {
        &&& f.current_line == o.current_line + 1
        &&& f.current_char == 1
        &&& f.top_line == (if o.current_line + 1 == o.top_line
            + rows(o.height) {
            o.top_line + 1
        } else {
            o.top_line as int
        })
        &&& f.top_line_changed == (o.top_line_changed
            || o.current_line + 1 == o.top_line + rows(o.height))
    }
    &&& o.current_line == o.buffer@.len() ==> f.current_line
        == o.current_line && f.current_char == o.current_char
        && f.same_view(&o)
}

/// The cursor went just past the end of its line.
pub open spec fn moved_eocl(o: Editor, f: Editor) -> bool {
    &&& f.wf()
    &&& f.same_content(&o)
    &&& f.same_view(&o)
    &&& f.current_line == o.current_line
    &&& f.current_char == fit_col(
        cluster_count(o.line(o.current_line as int)) + 1 as int,
        cluster_count(o.line(o.current_line as int)) as int,
    )
}

/// Every cursor movement keeps the cursor's line in view: from the top line
/// to `height - 3` lines further down (one line on a terminal too low for more).
pub proof fn lemma_moves_keep_view(o: Editor, f: Editor)
    requires
        o.wf(),
        moved_left(o, f) || moved_right(o, f) || moved_up(o, f) || moved_down(o, f)
            || moved_new_line(o, f) || moved_eocl(o, f),
    ensures
        f.top_line <= f.current_line < f.top_line + rows(f.height),
{
}

/// One column further right, where a `usize` still holds it.
pub(crate) fn step(c: usize) -> (r: usize)
    ensures
        r == vstd::math::min(c + 1, usize::MAX as int),
{
    if c < usize::MAX {
        c + 1
    } else {
        c
    }
}

/// Column `c` held to a line of `n` clusters.
pub(crate) fn clamp_col(c: usize, n: usize) -> (r: usize)
    ensures
        r == vstd::math::min(c as int, n + 1),
{
    if c <= n {
        c
    } else {
        n + 1
    }
}

} // verus!
