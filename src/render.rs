//! What the screen shows: the lines in view, lines with tabs laid out as
//! spaces, and the line numbers in the gutter.
use vstd::prelude::*;

use crate::editor::{gutter_start, rows, Editor};
use crate::text::{clusters_of, columns, graphemes, push_char};
use crate::buffer::line_views;

verus! {

/// `n` spaces.
pub open spec fn spaces(n: nat) -> Seq<char> {
    Seq::new(n, |_i: int| ' ')
}

/// The clusters `cl` as shown: each tab becomes the spaces up to the next
/// multiple of `tab_width`, every other cluster stays as it is.
pub open spec fn expanded(cl: Seq<Seq<char>>, tab_width: nat) -> Seq<char>
    decreases cl.len(),
{
    if cl.len() == 0 {
        Seq::empty()
    } else {
        let w = columns(cl.drop_last(), tab_width);
        let e = expanded(cl.drop_last(), tab_width);
        if cl.last() == seq!['\t'] && tab_width > 0 {
            e + spaces((tab_width - w % tab_width) as nat)
        } else {
            e + cl.last()
        }
    }
}

proof fn lemma_columns_bound(cl: Seq<Seq<char>>, tab_width: nat)
    ensures
        columns(cl, tab_width) <= cl.len() * (if tab_width > 0 { tab_width } else { 1 }),
    decreases cl.len(),
{
    if cl.len() > 0 {
        let t: nat = if tab_width > 0 { tab_width } else { 1 };
        lemma_columns_bound(cl.drop_last(), tab_width);
        let w = columns(cl.drop_last(), tab_width);
        if tab_width > 0 {
            assert(w % tab_width < tab_width) by (nonlinear_arith)
                requires
                    tab_width > 0,
            ;
        }
        assert(columns(cl, tab_width) <= w + t);
        assert((cl.len() - 1) * t + t == cl.len() * t) by (nonlinear_arith);
    }
}

/// Appends `n` spaces.
fn push_spaces(s: &mut String, n: usize)
    ensures
        final(s)@ == old(s)@ + spaces(n as nat),
{
    let mut i: usize = 0;
    while i < n
        invariant
            i <= n,
            s@ == old(s)@ + spaces(i as nat),
        decreases n - i,
    {
        push_char(s, ' ');
        i = i + 1;
        assert(s@ =~= old(s)@ + spaces(i as nat));
    }
}

/// The line as shown, with tabs laid out as spaces.
pub fn expand_tabs(line: &str, tab_width: usize) -> (r: String)
    ensures
        r@ == expanded(clusters_of(line@), tab_width as nat),
{
    let clusters = graphemes(line);
    let ghost cl = line_views(clusters@);
    let ghost t: nat = if tab_width > 0 { tab_width as nat } else { 1 };
    let mut r = String::new();
    let mut w: u128 = 0;
    let mut i: usize = 0;
    while i < clusters.len()
        invariant
            i <= clusters@.len(),
            cl == line_views(clusters@),
            t == (if tab_width > 0 { tab_width as nat } else { 1 }),
            w == columns(cl.take(i as int), tab_width as nat),
            r@ == expanded(cl.take(i as int), tab_width as nat),
        decreases clusters@.len() - i,
    {
        proof {
            assert(cl.take(i + 1).drop_last() =~= cl.take(i as int));
            assert(cl.take(i + 1).last() == cl[i as int]);
            lemma_columns_bound(cl.take(i as int), tab_width as nat);
            assert(i * t <= usize::MAX * usize::MAX) by (nonlinear_arith)
                requires
                    i <= usize::MAX,
                    t <= usize::MAX,
            ;
        }
        let g = &clusters[i];
        if crate::text::is_tab(g) && tab_width > 0 {
            let n = tab_width - (w % (tab_width as u128)) as usize;
            push_spaces(&mut r, n);
            w = w + n as u128;
        } else {
            r.append(g.as_str());
            w = w + 1;
        }
        i = i + 1;
    }
    proof {
        assert(cl.take(clusters@.len() as int) =~= cl);
    }
    r
}

/// The decimal digit `d`.
pub open spec fn digit_char(d: nat) -> char {
    if d == 0 { '0' } else if d == 1 { '1' } else if d == 2 { '2' } else if d == 3 { '3' }
    else if d == 4 { '4' } else if d == 5 { '5' } else if d == 6 { '6' } else if d == 7 { '7' }
    else if d == 8 { '8' } else { '9' }
}

/// The decimal numeral of `n`.
pub open spec fn decimal(n: nat) -> Seq<char>
    decreases n,
{
    if n < 10 {
        seq![digit_char(n)]
    } else {
        decimal(n / 10).push(digit_char(n % 10))
    }
}

fn digit(d: usize) -> (r: char)
    requires
        d < 10,
    ensures
        r == digit_char(d as nat),
{
    if d == 0 { '0' } else if d == 1 { '1' } else if d == 2 { '2' } else if d == 3 { '3' }
    else if d == 4 { '4' } else if d == 5 { '5' } else if d == 6 { '6' } else if d == 7 { '7' }
    else if d == 8 { '8' } else { '9' }
}

/// The decimal numeral of `n`.
pub fn to_decimal(n: usize) -> (r: String)
    ensures
        r@ == decimal(n as nat),
    decreases n,
{
    if n < 10 {
        let mut r = String::new();
        push_char(&mut r, digit(n));
        assert(r@ =~= seq![digit_char(n as nat)]);
        r
    } else {
        let mut r = to_decimal(n / 10);
        push_char(&mut r, digit(n % 10));
        r
    }
}

/// The gutter text of line `n`: its number, right-aligned in `width` columns.
pub open spec fn label(n: nat, width: nat) -> Seq<char> {
    if decimal(n).len() < width {
        spaces((width - decimal(n).len()) as nat) + decimal(n)
    } else {
        decimal(n)
    }
}

impl Editor {
    /// The first and the last buffer line in view.
    pub fn visible_lines(&self) -> (r: (usize, usize))
        requires
            self.wf(),
        ensures
            r.0 == self.top_line,
            r.1 == vstd::math::min(self.buffer@.len() as int, self.top_line + rows(self.height) - 1),
    {
        let below = self.text_rows() - 1;
        let n = self.buffer.len();
        (self.top_line, if n - self.top_line < below { n } else { self.top_line + below })
    }

    /// The gutter text of line `n`: its number, right-aligned in the columns
    /// left of the text minus the padding.
    pub fn line_label(&self, n: usize) -> (r: String)
        ensures
            r@ == label(n as nat, (gutter_start(self.buffer@.len()) - 2) as nat),
    {
        let width = (self.start_x() - 2) as usize;
        let digits = to_decimal(n);
        let len = digits.as_str().unicode_len();
        if len < width {
            let mut r = String::new();
            push_spaces(&mut r, width - len);
            r.append(digits.as_str());
            r
        } else {
            digits
        }
    }
}

} // verus!
