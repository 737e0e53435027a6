//! Lines seen as sequences of user-perceived characters (extended grapheme
//! clusters), and the edits that the editor makes on them.
use unicode_segmentation::UnicodeSegmentation;
use vstd::prelude::*;

use crate::buffer::line_views;

verus! {

/// The extended grapheme clusters of `s`, in order.
pub uninterp spec fn clusters_of(s: Seq<char>) -> Seq<Seq<char>>;

/// The number of user-perceived characters of a line.
pub open spec fn cluster_count(s: Seq<char>) -> nat {
    clusters_of(s).len()
}

/// The text made of clusters `from` up to (not including) `to`.
pub open spec fn joined(cl: Seq<Seq<char>>, from: int, to: int) -> Seq<char> {
    cl.subrange(from, to).flatten()
}

/// Relies on `UnicodeSegmentation::graphemes(s, true)`: it hands out the
/// extended grapheme clusters of `s` as consecutive, non-empty slices that
/// run from the start of `s` to its end.
#[verifier::external_body]
pub(crate) fn graphemes(s: &str) -> (r: Vec<String>)
    ensures
        line_views(r@) == clusters_of(s@),
        line_views(r@).flatten() == s@,
        forall|i: int| 0 <= i < r@.len() ==> (#[trigger] r@[i])@.len() > 0,
{
    s.graphemes(true).map(|g| g.to_string()).collect()
}

/// Relies on `String::push`: appends one character.
#[verifier::external_body]
pub(crate) fn push_char(s: &mut String, c: char)
    ensures
        final(s)@ == old(s)@.push(c),
{
    s.push(c)
}

/// The text of clusters `from` up to (not including) `to`.
pub fn join_clusters(clusters: &Vec<String>, from: usize, to: usize) -> (r: String)
    requires
        from <= to <= clusters@.len(),
    ensures
        r@ == joined(line_views(clusters@), from as int, to as int),
{
    let ghost cl = line_views(clusters@);
    let mut r = String::new();
    let mut i = from;
    while i < to
        invariant
            from <= i <= to <= clusters@.len(),
            cl == line_views(clusters@),
            r@ == joined(cl, from as int, i as int),
        decreases to - i,
    {
        proof {
            assert(cl.subrange(from as int, i + 1) =~= cl.subrange(from as int, i as int).push(
                cl[i as int],
            ));
            cl.subrange(from as int, i as int).lemma_flatten_push(cl[i as int]);
        }
        r.append(clusters[i].as_str());
        i = i + 1;
    }
    r
}

/// The line whose clusters are `clusters`, with `c` put in before cluster `k`.
pub fn insert_at(clusters: &Vec<String>, k: usize, c: char) -> (r: String)
    requires
        k <= clusters@.len(),
    ensures
        r@ == joined(line_views(clusters@), 0, k as int) + seq![c] + joined(
            line_views(clusters@),
            k as int,
            clusters@.len() as int,
        ),
{
    let mut r = join_clusters(clusters, 0, k);
    push_char(&mut r, c);
    let rest = join_clusters(clusters, k, clusters.len());
    r.append(rest.as_str());
    r
}

/// The line whose clusters are `clusters`, without cluster `k`.
pub fn remove_at(clusters: &Vec<String>, k: usize) -> (r: String)
    requires
        k < clusters@.len(),
    ensures
        r@ == joined(line_views(clusters@), 0, k as int) + joined(
            line_views(clusters@),
            k + 1,
            clusters@.len() as int,
        ),
{
    let n = clusters.len();
    let mut r = join_clusters(clusters, 0, k);
    let rest = join_clusters(clusters, k + 1, n);
    r.append(rest.as_str());
    r
}

/// The number of screen columns that the clusters `cl` take, where a tab
/// reaches to the next multiple of `tab_width` and any other cluster takes one.
pub open spec fn columns(cl: Seq<Seq<char>>, tab_width: nat) -> nat
    decreases cl.len(),
{
    if cl.len() == 0 {
        0
    } else {
        let w = columns(cl.drop_last(), tab_width);
        if cl.last() == seq!['\t'] && tab_width > 0 {
            (w + tab_width - w % tab_width) as nat
        } else {
            w + 1
        }
    }
}

/// The largest column a terminal can address.
pub const MAX_COLUMN: u16 = 65535;

/// Whether `g` is a tab character alone.
pub(crate) fn is_tab(g: &String) -> (r: bool)
    ensures
        r == (g@ == seq!['\t']),
{
    let s = g.as_str();
    if s.unicode_len() == 1 {
        let c = s.get_char(0);
        proof {
            if c == '\t' {
                assert(g@ =~= seq!['\t']);
            }
        }
        c == '\t'
    } else {
        false
    }
}

/// The columns that the first `k` clusters take, capped at [`MAX_COLUMN`].
pub fn width_of(clusters: &Vec<String>, k: usize, tab_width: usize) -> (r: u16)
    requires
        k <= clusters@.len(),
    ensures
        r as nat == vstd::math::min(
            columns(line_views(clusters@).take(k as int), tab_width as nat) as int,
            MAX_COLUMN as int,
        ),
{
    let ghost cl = line_views(clusters@);
    let cap: usize = MAX_COLUMN as usize;
    let mut w: usize = 0;
    let mut i: usize = 0;
    while i < k
        invariant
            i <= k <= clusters@.len(),
            cl == line_views(clusters@),
            cap == MAX_COLUMN,
            w as int == vstd::math::min(columns(cl.take(i as int), tab_width as nat) as int, cap as int),
        decreases k - i,
    {
        proof {
            assert(cl.take(i + 1).drop_last() =~= cl.take(i as int));
            assert(cl.take(i + 1).last() == cl[i as int]);
        }
        if w < cap {
            let step: usize = if is_tab(&clusters[i]) && tab_width > 0 {
                tab_width - w % tab_width
            } else {
                1
            };
            w = if step >= cap - w { cap } else { w + step };
        }
        i = i + 1;
    }
    w as u16
}

/// Non-empty clusters are no more than the characters they make up.
pub proof fn lemma_clusters_len(cl: Seq<Seq<char>>)
    requires
        forall|i: int| 0 <= i < cl.len() ==> (#[trigger] cl[i]).len() > 0,
    ensures
        cl.len() <= cl.flatten().len(),
    decreases cl.len(),
{
    if cl.len() > 0 {
        assert(cl[0].len() > 0);
        let rest = cl.drop_first();
        assert forall|i: int| 0 <= i < rest.len() implies (#[trigger] rest[i]).len() > 0 by {
            assert(rest[i] == cl[i + 1]);
        }
        lemma_clusters_len(rest);
    }
}

} // verus!
