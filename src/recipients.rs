//! Reading the recipient list of a mail from its comma-separated form.

use vstd::prelude::*;

verus! {

/// Whether `c` is white space in the sense of Unicode's White_Space
/// property, the set that `char::is_whitespace` and `str::trim` use.
pub open spec fn is_space(c: char) -> bool {
    let u = c as u32;
    (0x09 <= u && u <= 0x0D) || u == 0x20 || u == 0x85 || u == 0xA0 || u == 0x1680 || (0x2000 <= u
        && u <= 0x200A) || u == 0x2028 || u == 0x2029 || u == 0x202F || u == 0x205F || u == 0x3000
}

fn is_space_char(c: char) -> (r: bool)
    ensures
        r == is_space(c),
{
    let u = c as u32;
    (0x09 <= u && u <= 0x0D) || u == 0x20 || u == 0x85 || u == 0xA0 || u == 0x1680 || (0x2000 <= u
        && u <= 0x200A) || u == 0x2028 || u == 0x2029 || u == 0x202F || u == 0x205F || u == 0x3000
}

/// `s` without its leading white space.
pub open spec fn trim_start(s: Seq<char>) -> Seq<char>
    decreases s.len(),
{
    if s.len() > 0 && is_space(s[0]) {
        trim_start(s.drop_first())
    } else {
        s
    }
}

/// `s` without its trailing white space.
pub open spec fn trim_end(s: Seq<char>) -> Seq<char>
    decreases s.len(),
{
    if s.len() > 0 && is_space(s.last()) {
        trim_end(s.drop_last())
    } else {
        s
    }
}

/// `s` without leading or trailing white space.
pub open spec fn trimmed(s: Seq<char>) -> Seq<char> {
    trim_end(trim_start(s))
}

/// The pieces of `s` between commas, in order; a string without a comma is
/// one piece.
pub open spec fn pieces(s: Seq<char>) -> Seq<Seq<char>>
    decreases s.len(),
{
    if s.len() == 0 {
        seq![Seq::empty()]
    } else {
        let p = pieces(s.drop_last());
        if s.last() == ',' {
            p.push(Seq::empty())
        } else {
            p.update(p.len() - 1, p.last().push(s.last()))
        }
    }
}

/// The trimmed pieces that are not empty, in order.
pub open spec fn kept(ps: Seq<Seq<char>>) -> Seq<Seq<char>>
    decreases ps.len(),
{
    if ps.len() == 0 {
        seq![]
    } else {
        kept(ps.drop_last()) + if trimmed(ps.last()).len() > 0 {
            seq![trimmed(ps.last())]
        } else {
            seq![]
        }
    }
}

/// The recipients that a comma-separated list names: each piece trimmed,
/// empty ones left out, in the order of the list.
pub open spec fn recipients_of(s: Seq<char>) -> Seq<Seq<char>> {
    kept(pieces(s))
}

/// The text of each string, in order.
pub open spec fn texts(v: Seq<String>) -> Seq<Seq<char>> {
    v.map_values(|x: String| x@)
}

/// The bounds of `s[from..to]` once trimmed.
fn trim_bounds(s: &str, from: usize, to: usize) -> (r: (usize, usize))
    requires
        from <= to <= s@.len(),
    ensures
        from <= r.0 <= r.1 <= to,
        s@.subrange(r.0 as int, r.1 as int) == trimmed(s@.subrange(from as int, to as int)),
{
    let mut lo = from;
    while lo < to && is_space_char(s.get_char(lo))
        invariant
            from <= lo <= to <= s@.len(),
            trim_start(s@.subrange(from as int, to as int)) == trim_start(
                s@.subrange(lo as int, to as int),
            ),
        decreases to - lo,
    {
        assert(s@.subrange(lo as int, to as int).drop_first() =~= s@.subrange(lo + 1, to as int));
        lo = lo + 1;
    }
    let mut hi = to;
    while hi > lo && is_space_char(s.get_char(hi - 1))
        invariant
            lo <= hi <= to <= s@.len(),
            trim_end(s@.subrange(lo as int, to as int)) == trim_end(s@.subrange(lo as int, hi as int)),
        decreases hi - lo,
    {
        assert(s@.subrange(lo as int, hi as int).drop_last() =~= s@.subrange(lo as int, hi - 1));
        hi = hi - 1;
    }
    (lo, hi)
}

/// Splits a comma-separated list of recipients: each piece is trimmed of
/// white space, and empty pieces are left out.
pub fn split_recipients(s: &str) -> (r: Vec<String>)
    ensures
        texts(r@) == recipients_of(s@),
{
    let n = s.unicode_len();
    let mut out: Vec<String> = Vec::new();
    let mut start: usize = 0;
    let mut i: usize = 0;
    let ghost mut done: Seq<Seq<char>> = seq![];
    assert(s@.subrange(0, 0) =~= Seq::<char>::empty());
    assert(pieces(s@.subrange(0, 0)) =~= done.push(s@.subrange(0, 0)));
    while i < n
        invariant
            n == s@.len(),
            start <= i <= n,
            pieces(s@.subrange(0, i as int)) == done.push(s@.subrange(start as int, i as int)),
            texts(out@) == kept(done),
        decreases n - i,
    {
        let c = s.get_char(i);
        let ghost prev = s@.subrange(0, i as int);
        assert(s@.subrange(0, i + 1).drop_last() =~= prev);
        if c == ',' {
            let (lo, hi) = trim_bounds(s, start, i);
            let ghost piece = s@.subrange(start as int, i as int);
            proof {
                assert(done.push(piece).drop_last() =~= done);
            }
            if lo < hi {
                let t = String::from_str(s.substring_char(lo, hi));
                out.push(t);
            }
            assert(texts(out@) =~= kept(done.push(piece)));
            proof {
                done = done.push(piece);
                assert(s@.subrange(i + 1, i + 1) =~= Seq::<char>::empty());
                assert(pieces(s@.subrange(0, i + 1)) =~= done.push(s@.subrange(i + 1, i + 1)));
            }
            start = i + 1;
        } else {
            assert(s@.subrange(0, i + 1).last() == c);
            assert(s@.subrange(start as int, i + 1) =~= s@.subrange(start as int, i as int).push(c));
            assert(pieces(s@.subrange(0, i + 1)) =~= done.push(s@.subrange(start as int, i + 1)));
        }
        i = i + 1;
    }
    let (lo, hi) = trim_bounds(s, start, n);
    let ghost piece = s@.subrange(start as int, n as int);
    assert(done.push(piece).drop_last() =~= done);
    if lo < hi {
        let t = String::from_str(s.substring_char(lo, hi));
        out.push(t);
    }
    assert(s@.subrange(0, n as int) =~= s@);
    assert(texts(out@) =~= kept(done.push(piece)));
    out
}

proof fn lemma_kept_not_empty(ps: Seq<Seq<char>>)
    ensures
        forall|j: int| 0 <= j < kept(ps).len() ==> (#[trigger] kept(ps)[j]).len() > 0,
    decreases ps.len(),
{
    if ps.len() > 0 {
        lemma_kept_not_empty(ps.drop_last());
        let a = kept(ps.drop_last());
        assert forall|j: int| 0 <= j < kept(ps).len() implies (#[trigger] kept(ps)[j]).len() > 0 by {
            if j < a.len() {
                assert(kept(ps)[j] == a[j]);
            }
        }
    }
}

/// Every recipient read from a list is non-empty.
pub proof fn lemma_recipients_not_empty(s: Seq<char>)
    ensures
        forall|j: int|
            0 <= j < recipients_of(s).len() ==> (#[trigger] recipients_of(s)[j]).len() > 0,
{
    lemma_kept_not_empty(pieces(s));
}

} // verus!
