//! The modal key dispatch: what each key does in Command and in Insert mode.
use vstd::prelude::*;

use crate::editor::{
    clamp_col, fit_col, moved_down, moved_left, moved_right, moved_up, rows, step, Editor, Mode,
};
use crate::text::{cluster_count, insert_at, join_clusters, joined, remove_at};

verus! {

/// An input event, as the editor tells keys apart.
#[derive(Clone, Copy, Debug, PartialEq, Eq, Structural)]
pub enum Key {
    /// A character key; Enter comes as `'\n'`.
    Char(char),
    Backspace,
    Esc,
    /// Any other key.
    Unknown,
}

/// What the caller does after a key was handled.
#[derive(Clone, Copy, Debug, PartialEq, Eq, Structural)]
pub enum KeyOutcome {
    /// Nothing more: repaint and wait for the next key.
    Handled,
    /// Read an ex-command line and hand it to `Editor::handle_command`.
    ReadCommand,
}

/// `c` went in before the cursor's cluster and the cursor moved past it.
pub open spec fn inserted(o: Editor, f: Editor, c: char) -> bool {
    let cl = o.cur_clusters();
    let k = o.current_char - 1;
    let new_line = joined(cl, 0, k) + seq![c] + joined(cl, k, cl.len() as int);
    &&& f.wf()
    &&& f.buffer@ == o.buffer@.update(o.current_line - 1, new_line)
    &&& f.current_line == o.current_line
    &&& f.current_char == fit_col(o.current_char + 1, cluster_count(new_line) as int)
    &&& f.same_view(&o)
    &&& f.same_session(&o)
    &&& f.modified
}

/// The cursor's line was cut at the cursor, the part right of it became the
/// next line, and the cursor went to the start of that line. A buffer with
/// `usize::MAX` lines takes no more and stays as it was.
pub open spec fn split(o: Editor, f: Editor) -> bool {
    let cl = o.cur_clusters();
    let k = o.current_char - 1;
    let n = o.current_line;
    if o.buffer@.len() < usize::MAX {
        &&& f.wf()
        &&& f.buffer@ == o.buffer@.update(n - 1, joined(cl, 0, k)).insert(
            n as int,
            joined(cl, k, cl.len() as int),
        )
        &&& f.current_line == n + 1
        &&& f.current_char == 1
        &&& f.top_line == (if n + 1 == o.top_line + rows(o.height) {
            o.top_line + 1
        } else {
            o.top_line as int
        })
        &&& f.top_line_changed == (o.top_line_changed || n + 1 == o.top_line + rows(o.height))
        &&& f.same_session(&o)
        &&& f.modified
    } else {
        f == o
    }
}

/// Backspace: the cluster left of the cursor went away; at the start of a
/// line other than the first, the line was joined onto the end of the one
/// above and the cursor went to where that line used to end; at the start of
/// the first line nothing changed.
pub open spec fn backspaced(o: Editor, f: Editor) -> bool {
    let cl = o.cur_clusters();
    let c = o.current_char;
    let n = o.current_line;
    if c > 1 {
        let new_line = joined(cl, 0, c - 2) + joined(cl, c - 1, cl.len() as int);
        &&& f.wf()
        &&& f.buffer@ == o.buffer@.update(n - 1, new_line)
        &&& f.current_line == n
        &&& f.current_char == fit_col(c - 1, cluster_count(new_line) as int)
        &&& f.same_view(&o)
        &&& f.same_session(&o)
        &&& f.modified
    } else if n > 1 {
        let prev = o.line(n - 1);
        let whole = prev + o.line(n as int);
        &&& f.wf()
        &&& f.buffer@ == o.buffer@.update(n - 2, whole).remove(n - 1)
        &&& f.current_line == n - 1
        &&& f.current_char == fit_col(cluster_count(prev) + 1 as int, cluster_count(whole) as int)
        &&& f.top_line == (if n == o.top_line {
            o.top_line - 1
        } else {
            o.top_line as int
        })
        &&& f.top_line_changed == (o.top_line_changed || n == o.top_line)
        &&& f.same_session(&o)
        &&& f.modified
    } else {
        f == o
    }
}

/// What a key does, by mode.
pub open spec fn key_handled(o: Editor, f: Editor, key: Key, r: KeyOutcome) -> bool {
    match o.mode {
        Mode::Command => match key {
            Key::Char('i') => f == (Editor { mode: Mode::Insert, ..o }) && r == KeyOutcome::Handled,
            Key::Char('h') => moved_left(o, f) && r == KeyOutcome::Handled,
            Key::Char('j') => moved_down(o, f) && r == KeyOutcome::Handled,
            Key::Char('k') => moved_up(o, f) && r == KeyOutcome::Handled,
            Key::Char('l') => moved_right(o, f) && r == KeyOutcome::Handled,
            Key::Char(':') => f == o && r == KeyOutcome::ReadCommand,
            _ => f == o && r == KeyOutcome::Handled,
        },
        Mode::Insert => r == KeyOutcome::Handled && match key {
            Key::Char('\n') => split(o, f),
            Key::Char(c) => inserted(o, f, c),
            Key::Backspace => backspaced(o, f),
            Key::Esc => f == (Editor { mode: Mode::Command, ..o }),
            Key::Unknown => f == o,
        },
    }
}

/// Inserting, splitting, deleting and joining never leave the buffer without
/// a line.
pub proof fn lemma_edits_keep_a_line(o: Editor, f: Editor, c: char)
    requires
        o.wf(),
        inserted(o, f, c) || split(o, f) || backspaced(o, f),
    ensures
        f.buffer@.len() >= 1,
{
}

/// From any valid state, every key leaves the cursor on an existing line and
/// at most one cluster past its end.
pub proof fn lemma_keys_keep_cursor(o: Editor, f: Editor, key: Key, r: KeyOutcome)
    requires
        o.wf(),
        key_handled(o, f, key, r),
    ensures
        1 <= f.current_line <= f.buffer@.len(),
        1 <= f.current_char <= cluster_count(f.line(f.current_line as int)) + 1,
{
}

impl Editor {
    /// Puts `c` in before the cursor's cluster and moves the cursor past it.
    pub fn insert_char(&mut self, c: char)
        requires
            old(self).wf(),
        ensures
            inserted(*old(self), *final(self), c),
    {
        let n = self.current_line;
        let clusters = self.line_clusters(n);
        let line = insert_at(&clusters, self.current_char - 1, c);
        let _ = self.buffer.replace_line(n, line);
        let now = self.line_clusters(n);
        self.current_char = clamp_col(step(self.current_char), now.len());
        self.modified = true;
        self.sync_screen();
    }

    /// Cuts the cursor's line at the cursor; the part right of it becomes the
    /// next line, where the cursor goes, at its start.
    pub fn split_line(&mut self)
        requires
            old(self).wf(),
        ensures
            split(*old(self), *final(self)),
    {
        if self.buffer.len() == usize::MAX {
            return;
        }
        let n = self.current_line;
        let clusters = self.line_clusters(n);
        let k = self.current_char - 1;
        let left = join_clusters(&clusters, 0, k);
        let right = join_clusters(&clusters, k, clusters.len());
        self.scroll_to_show(n + 1);
        let _ = self.buffer.replace_line(n, left);
        let _ = self.buffer.insert(n + 1, right);
        self.current_line = n + 1;
        self.current_char = 1;
        self.modified = true;
        self.sync_screen();
    }

    /// Deletes the cluster left of the cursor, or, at the start of a line
    /// other than the first, joins the line onto the one above.
    pub fn backspace(&mut self)
        requires
            old(self).wf(),
        ensures
            backspaced(*old(self), *final(self)),
    {
        let n = self.current_line;
        if self.current_char > 1 {
            let clusters = self.line_clusters(n);
            let line = remove_at(&clusters, self.current_char - 2);
            let _ = self.buffer.replace_line(n, line);
            let now = self.line_clusters(n);
            self.current_char = clamp_col(self.current_char - 1, now.len());
            self.modified = true;
            self.sync_screen();
        } else if n > 1 {
            let above = self.line_clusters(n - 1);
            let mut whole = self.buffer.get(n - 1).unwrap().clone();
            whole.append(self.buffer.get(n).unwrap().as_str());
            if n == self.top_line {
                self.top_line = self.top_line - 1;
                self.top_line_changed = true;
            }
            let _ = self.buffer.replace_line(n - 1, whole);
            let _ = self.buffer.remove(n);
            self.current_line = n - 1;
            let now = self.line_clusters(n - 1);
            self.current_char = clamp_col(step(above.len()), now.len());
            self.modified = true;
            self.sync_screen();
        }
    }

    /// Handles one key: in Command mode `i` enters Insert mode, `h`, `j`, `k`
    /// and `l` move the cursor and `:` asks for an ex-command; in Insert mode
    /// characters go into the text, Enter splits the line, Backspace deletes
    /// or joins, and Escape goes back to Command mode.
    pub fn handle_key(&mut self, key: Key) -> (r: KeyOutcome)
        requires
            old(self).wf(),
        ensures
            key_handled(*old(self), *final(self), key, r),
            final(self).wf(),
    {
        match self.mode {
            Mode::Command => match key {
                Key::Char('i') => {
                    self.mode = Mode::Insert;
                    KeyOutcome::Handled
                },
                Key::Char('h') => {
                    self.move_cursor_left();
                    KeyOutcome::Handled
                },
                Key::Char('j') => {
                    self.move_cursor_down();
                    KeyOutcome::Handled
                },
                Key::Char('k') => {
                    self.move_cursor_up();
                    KeyOutcome::Handled
                },
                Key::Char('l') => {
                    self.move_cursor_right();
                    KeyOutcome::Handled
                },
                Key::Char(':') => KeyOutcome::ReadCommand,
                _ => KeyOutcome::Handled,
            },
            Mode::Insert => {
                match key {
                    Key::Char('\n') => self.split_line(),
                    Key::Char(c) => self.insert_char(c),
                    Key::Backspace => self.backspace(),
                    Key::Esc => {
                        self.mode = Mode::Command;
                    },
                    Key::Unknown => {},
                }
                KeyOutcome::Handled
            },
        }
    }
}

} // verus!
