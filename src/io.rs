//! The text form of a buffer: one line per record, each record ended by a
//! line feed.
use vstd::prelude::*;

use crate::buffer::{line_views, Buffer};
use crate::editor::Editor;
use crate::text::push_char;

verus! {

/// `t` cut at each line feed; there is one piece more than there are line feeds.
pub open spec fn pieces(t: Seq<char>) -> Seq<Seq<char>>
    decreases t.len(),
{
    if t.len() == 0 {
        seq![Seq::<char>::empty()]
    } else {
        let p = pieces(t.drop_last());
        if t.last() == '\n' {
            p.push(Seq::<char>::empty())
        } else {
            p.update(p.len() - 1, p.last().push(t.last()))
        }
    }
}

/// The lines of a text: the pieces between line feeds, where a line feed
/// ends the text it adds no empty line after it. An empty text has one
/// empty line.
pub open spec fn lines_of(t: Seq<char>) -> Seq<Seq<char>> {
    let p = pieces(t);
    if p.len() > 1 && p.last().len() == 0 {
        p.drop_last()
    } else {
        p
    }
}

/// A line followed by its line feed.
pub open spec fn record(l: Seq<char>) -> Seq<char> {
    l.push('\n')
}

/// Each line followed by a line feed.
pub open spec fn records(lines: Seq<Seq<char>>) -> Seq<char> {
    lines.map_values(|l: Seq<char>| record(l)).flatten()
}

/// The text form of `lines`: each line followed by a line feed, except that
/// one empty line alone is the empty text.
pub open spec fn text_of(lines: Seq<Seq<char>>) -> Seq<char> {
    if lines == seq![Seq::<char>::empty()] {
        Seq::empty()
    } else {
        records(lines)
    }
}

/// No line holds a line feed.
pub open spec fn no_terminators(lines: Seq<Seq<char>>) -> bool {
    forall|i: int| 0 <= i < lines.len() ==> !(#[trigger] lines[i]).contains('\n')
}

proof fn lemma_records_empty()
    ensures
        records(Seq::<Seq<char>>::empty()) == Seq::<char>::empty(),
{
    let f = |l: Seq<char>| record(l);
    assert(Seq::<Seq<char>>::empty().map_values(f) =~= Seq::<Seq<char>>::empty());
}

proof fn lemma_records_push(lines: Seq<Seq<char>>, l: Seq<char>)
    ensures
        records(lines.push(l)) == records(lines) + record(l),
{
    let f = |l: Seq<char>| record(l);
    assert(lines.push(l).map_values(f) =~= lines.map_values(f).push(record(l)));
    lines.map_values(f).lemma_flatten_push(record(l));
}

proof fn lemma_pieces_len(t: Seq<char>)
    ensures
        pieces(t).len() >= 1,
    decreases t.len(),
{
    if t.len() > 0 {
        lemma_pieces_len(t.drop_last());
    }
}

/// Text without a line feed, appended, extends the last piece.
proof fn lemma_pieces_plain(t: Seq<char>, s: Seq<char>)
    requires
        !s.contains('\n'),
    ensures
        pieces(t + s) == pieces(t).update(pieces(t).len() - 1, pieces(t).last() + s),
    decreases s.len(),
{
    lemma_pieces_len(t);
    let p = pieces(t);
    if s.len() == 0 {
        assert(t + s =~= t);
        assert(p.last() + s =~= p.last());
        assert(p.update(p.len() - 1, p.last()) =~= p);
    } else {
        let s2 = s.drop_last();
        let c = s.last();
        assert(!s2.contains('\n')) by {
            if s2.contains('\n') {
                let j = choose|j: int| 0 <= j < s2.len() && s2[j] == '\n';
                assert(s[j] == '\n');
            }
        }
        assert(c != '\n') by {
            assert(s[s.len() - 1] == c);
        }
        lemma_pieces_plain(t, s2);
        assert((t + s).drop_last() =~= t + s2);
        assert((t + s).last() == c);
        let q = pieces(t + s2);
        assert(q.last() == p.last() + s2);
        assert((p.last() + s2).push(c) =~= p.last() + s);
        assert(q.update(q.len() - 1, q.last().push(c)) =~= p.update(p.len() - 1, p.last() + s));
    }
}

/// The pieces of the records of `lines` are the lines and one empty piece.
proof fn lemma_pieces_records(lines: Seq<Seq<char>>)
    requires
        no_terminators(lines),
    ensures
        pieces(records(lines)) == lines.push(Seq::<char>::empty()),
    decreases lines.len(),
{
    let f = |l: Seq<char>| record(l);
    if lines.len() == 0 {
        assert(lines.map_values(f) =~= Seq::<Seq<char>>::empty());
        assert(records(lines) =~= Seq::<char>::empty());
        assert(lines.push(Seq::<char>::empty()) =~= seq![Seq::<char>::empty()]);
    } else {
        let front = lines.drop_last();
        let l = lines.last();
        assert(no_terminators(front)) by {
            assert forall|i: int| 0 <= i < front.len() implies !(#[trigger] front[i]).contains(
                '\n',
            ) by {
                assert(front[i] == lines[i]);
            }
        }
        assert(!l.contains('\n')) by {
            assert(lines[lines.len() - 1] == l);
        }
        lemma_pieces_records(front);
        assert(lines.map_values(f) =~= front.map_values(f).push(record(l)));
        front.map_values(f).lemma_flatten_push(record(l));
        let r = records(front);
        assert(records(lines) == r + record(l));
        assert(r + record(l) =~= (r + l).push('\n'));
        assert((r + l).push('\n').drop_last() =~= r + l);
        lemma_pieces_plain(r, l);
        let p = pieces(r);
        assert(p == front.push(Seq::<char>::empty()));
        assert(Seq::<char>::empty() + l =~= l);
        assert(p.update(p.len() - 1, p.last() + l) =~= lines);
    }
}

/// Saving a buffer and loading the text back gives the same lines, for any
/// non-empty list of lines that hold no line feed.
pub proof fn lemma_load_save(lines: Seq<Seq<char>>)
    requires
        lines.len() >= 1,
        no_terminators(lines),
    ensures
        lines_of(text_of(lines)) == lines,
{
    if lines == seq![Seq::<char>::empty()] {
        assert(pieces(Seq::<char>::empty()) == lines);
    } else {
        lemma_pieces_records(lines);
        assert(lines.push(Seq::<char>::empty()).drop_last() =~= lines);
    }
}

/// The lines of `text`, as loading a file splits them.
pub fn lines_from_text(text: &str) -> (r: Vec<String>)
    ensures
        line_views(r@) == lines_of(text@),
{
    let mut done: Vec<String> = Vec::new();
    let mut cur = String::new();
    let n = text.unicode_len();
    let mut i: usize = 0;
    proof {
        assert(text@.take(0) =~= Seq::<char>::empty());
        assert(line_views(done@).push(cur@) =~= seq![Seq::<char>::empty()]);
    }
    while i < n
        invariant
            i <= n == text@.len(),
            line_views(done@).push(cur@) == pieces(text@.take(i as int)),
        decreases n - i,
    {
        let c = text.get_char(i);
        let ghost before = line_views(done@);
        let ghost was = cur@;
        proof {
            assert(text@.take(i + 1).drop_last() =~= text@.take(i as int));
            assert(text@.take(i + 1).last() == c);
        }
        if c == '\n' {
            done.push(cur);
            cur = String::new();
            proof {
                assert(line_views(done@) =~= before.push(was));
            }
        } else {
            push_char(&mut cur, c);
            proof {
                assert(line_views(done@).push(cur@) =~= before.push(was).update(
                    before.len() as int,
                    was.push(c),
                ));
            }
        }
        i = i + 1;
    }
    proof {
        assert(text@.take(n as int) =~= text@);
    }
    if done.len() == 0 || cur.as_str().unicode_len() > 0 {
        let ghost before = line_views(done@);
        done.push(cur);
        proof {
            assert(line_views(done@) =~= before.push(cur@));
        }
    } else {
        proof {
            assert(line_views(done@) =~= line_views(done@).push(cur@).drop_last());
        }
    }
    done
}

impl Buffer {
    /// The text form of the buffer, as saving writes it.
    pub fn to_text(&self) -> (r: String)
        ensures
            r@ == text_of(self@),
    {
        let n = self.len();
        if n == 1 {
            let first = self.get(1).unwrap();
            if first.as_str().unicode_len() == 0 {
                proof {
                    assert(self@[0] =~= Seq::<char>::empty());
                    assert(self@ =~= seq![Seq::<char>::empty()]);
                }
                return String::new();
            }
        }
        let ghost lines = self@;
        let mut r = String::new();
        let mut i: usize = 0;
        proof {
            assert(lines.take(0) =~= Seq::<Seq<char>>::empty());
            lemma_records_empty();
        }
        while i < n
            invariant
                i <= n == lines.len(),
                lines == self@,
                r@ == records(lines.take(i as int)),
            decreases n - i,
        {
            let line = self.get(i + 1).unwrap();
            proof {
                assert(lines.take(i + 1) =~= lines.take(i as int).push(lines[i as int]));
                lemma_records_push(lines.take(i as int), lines[i as int]);
            }
            r.append(line.as_str());
            push_char(&mut r, '\n');
            proof {
                assert(r@ =~= records(lines.take(i as int)) + record(lines[i as int]));
            }
            i = i + 1;
        }
        proof {
            assert(lines.take(n as int) =~= lines);
            if lines == seq![Seq::<char>::empty()] {
                assert(lines[0].len() == 0);
            }
        }
        r
    }
}

proof fn lemma_lines_of_len(t: Seq<char>)
    ensures
        lines_of(t).len() >= 1,
{
    lemma_pieces_len(t);
}

impl Editor {
    /// Replaces the buffer wholesale by the lines of `text`, puts the cursor
    /// on the first character of the first line and clears the modified flag.
    pub fn load_text(&mut self, text: &str)
        requires
            old(self).wf(),
        ensures
            final(self).wf(),
            final(self).buffer@ == lines_of(text@),
            final(self).current_line == 1,
            final(self).current_char == 1,
            final(self).top_line == 1,
            final(self).top_line_changed,
            !final(self).modified,
            final(self).same_session(old(self)),
    {
        let lines = lines_from_text(text);
        proof {
            lemma_lines_of_len(text@);
        }
        self.buffer.set(lines);
        self.current_line = 1;
        self.current_char = 1;
        self.top_line = 1;
        self.top_line_changed = true;
        self.modified = false;
        self.sync_screen();
    }

    /// The text that saving writes.
    pub fn save_text(&self) -> (r: String)
        ensures
            r@ == text_of(self.buffer@),
    {
        self.buffer.to_text()
    }

    /// Records that the buffer was written out: clears the modified flag.
    pub fn mark_saved(&mut self)
        requires
            old(self).wf(),
        ensures
            final(self).wf(),
            *final(self) == (Editor { modified: false, ..*old(self) }),
    {
        self.modified = false;
    }
}

} // verus!
