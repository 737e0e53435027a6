use vstd::prelude::*;

verus! {

/// `s` cut into consecutive pieces of `n` characters; the last piece may be shorter.
pub open spec fn pieces_of(s: Seq<char>, n: nat) -> Seq<Seq<char>>
    decreases s.len(),
{
    if s.len() == 0 || n == 0 {
        Seq::empty()
    } else if s.len() <= n {
        seq![s]
    } else {
        seq![s.take(n as int)] + pieces_of(s.skip(n as int), n)
    }
}

/// Cuts `s` into pieces of `n` characters each, the last one possibly shorter.
pub fn split_string_every(s: &str, n: usize) -> (r: Vec<String>)
    requires
        n > 0 || s@.len() == 0,
    ensures
        crate::buffer::line_views(r@) == pieces_of(s@, n as nat),
{
    let mut res: Vec<String> = Vec::new();
    let len = s.unicode_len();
    let mut ctr: usize = 0;
    proof {
        assert(s@.skip(0) =~= s@);
        assert(crate::buffer::line_views(res@) =~= Seq::<Seq<char>>::empty());
        assert(Seq::<Seq<char>>::empty() + pieces_of(s@, n as nat) =~= pieces_of(s@, n as nat));
    }
    while ctr < len
        invariant
            ctr <= len == s@.len(),
            n > 0 || len == 0,
            crate::buffer::line_views(res@) + pieces_of(s@.skip(ctr as int), n as nat) == pieces_of(
                s@,
                n as nat,
            ),
        decreases len - ctr,
    {
        let ghost rest = s@.skip(ctr as int);
        let to: usize = if len - ctr <= n { len } else { ctr + n };
        let piece = s.substring_char(ctr, to);
        proof {
            assert(rest.len() > 0);
            if rest.len() <= n {
                assert(piece@ =~= rest);
                assert(s@.skip(to as int) =~= Seq::<char>::empty());
                assert(pieces_of(s@.skip(to as int), n as nat) =~= Seq::<Seq<char>>::empty());
            } else {
                assert(piece@ =~= rest.take(n as int));
                assert(s@.skip(to as int) =~= rest.skip(n as int));
            }
        }
        let ghost before = crate::buffer::line_views(res@);
        res.push(piece.to_owned());
        proof {
            assert(crate::buffer::line_views(res@) =~= before.push(piece@));
            assert(crate::buffer::line_views(res@) + pieces_of(s@.skip(to as int), n as nat)
                =~= before + pieces_of(rest, n as nat));
        }
        ctr = to;
    }
    proof {
        assert(s@.skip(ctr as int) =~= Seq::<char>::empty());
        assert(crate::buffer::line_views(res@) =~= crate::buffer::line_views(res@) + Seq::<Seq<char>>::empty());
    }
    res
}

} // verus!
