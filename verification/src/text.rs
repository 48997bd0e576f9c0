//! Small verified helpers on text: splitting on a delimiter, prefix and
//! equality tests, and fitting a label to a fixed width.

use vstd::prelude::*;

verus! {

/// The views of a sequence of string slices.
pub open spec fn views(parts: Seq<&str>) -> Seq<Seq<char>> {
    Seq::new(parts.len(), |i: int| parts[i]@)
}

/// The segments of `s` between occurrences of `delim`, in order.
///
/// Reading `s` from the left, every `delim` closes the current segment and
/// opens a new, empty one; any other character joins the current segment.
/// A text with `k` delimiters therefore has `k + 1` segments, some of which
/// may be empty.
pub open spec fn split_spec(s: Seq<char>, delim: char) -> Seq<Seq<char>>
    decreases s.len(),
{
    if s.len() == 0 {
        seq![Seq::<char>::empty()]
    } else {
        let before = split_spec(s.drop_last(), delim);
        if s.last() == delim {
            before.push(Seq::<char>::empty())
        } else {
            before.drop_last().push(before.last().push(s.last()))
        }
    }
}

/// How many times `delim` occurs in `s`.
pub open spec fn count_of(s: Seq<char>, delim: char) -> nat
    decreases s.len(),
{
    if s.len() == 0 {
        0
    } else {
        count_of(s.drop_last(), delim) + if s.last() == delim { 1nat } else { 0nat }
    }
}

/// A text always has one segment more than it has delimiters.
pub proof fn lemma_split_len(s: Seq<char>, delim: char)
    ensures
        split_spec(s, delim).len() == count_of(s, delim) + 1,
    decreases s.len(),
{
    if s.len() > 0 {
        lemma_split_len(s.drop_last(), delim);
    }
}

/// A text without the delimiter is its own single segment.
pub proof fn lemma_split_without_delim(s: Seq<char>, delim: char)
    requires
        !s.contains(delim),
    ensures
        split_spec(s, delim) == seq![s],
    decreases s.len(),
{
    if s.len() == 0 {
        assert(s =~= Seq::<char>::empty());
    } else {
        let front = s.drop_last();
        assert forall|i: int| 0 <= i < front.len() implies front[i] != delim by {
            assert(s[i] == front[i]);
            assert(s.contains(s[i]));
        }
        assert(!front.contains(delim));
        lemma_split_without_delim(front, delim);
        assert(s.contains(s.last()));
        assert(front.push(s.last()) =~= s);
        assert(seq![front].drop_last().push(front.push(s.last())) =~= seq![s]);
    }
}

/// Every character of every segment is a character of the text.
pub proof fn lemma_split_chars(s: Seq<char>, delim: char, k: int, c: char)
    requires
        0 <= k < split_spec(s, delim).len(),
        split_spec(s, delim)[k].contains(c),
    ensures
        s.contains(c),
        c != delim,
    decreases s.len(),
{
    if s.len() == 0 {
    } else {
        let front = s.drop_last();
        let before = split_spec(front, delim);
        lemma_split_len(front, delim);
        if s.last() == delim {
            if k < before.len() {
                lemma_split_chars(front, delim, k, c);
                let j = choose|j: int| 0 <= j < front.len() && front[j] == c;
                assert(s[j] == c);
            }
        } else {
            if k < before.len() - 1 {
                lemma_split_chars(front, delim, k, c);
                let j = choose|j: int| 0 <= j < front.len() && front[j] == c;
                assert(s[j] == c);
            } else {
                let grown = before.last().push(s.last());
                let j = choose|j: int| 0 <= j < grown.len() && grown[j] == c;
                if j < before.last().len() {
                    assert(before.last()[j] == c);
                    lemma_split_chars(front, delim, before.len() - 1, c);
                    let m = choose|m: int| 0 <= m < front.len() && front[m] == c;
                    assert(s[m] == c);
                } else {
                    assert(s[s.len() - 1] == c);
                }
            }
        }
    }
}

/// The segments one after the other, with `delim` between neighbours.
pub open spec fn join_spec(parts: Seq<Seq<char>>, delim: char) -> Seq<char>
    decreases parts.len(),
{
    if parts.len() == 0 {
        Seq::<char>::empty()
    } else if parts.len() == 1 {
        parts[0]
    } else {
        join_spec(parts.drop_last(), delim).push(delim) + parts.last()
    }
}

/// The segments one after the other, with nothing between them.
pub open spec fn concat_spec(parts: Seq<Seq<char>>) -> Seq<char>
    decreases parts.len(),
{
    if parts.len() == 0 {
        Seq::<char>::empty()
    } else {
        concat_spec(parts.drop_last()) + parts.last()
    }
}

/// `s` with every occurrence of `delim` taken out.
pub open spec fn without_char(s: Seq<char>, delim: char) -> Seq<char>
    decreases s.len(),
{
    if s.len() == 0 {
        Seq::<char>::empty()
    } else if s.last() == delim {
        without_char(s.drop_last(), delim)
    } else {
        without_char(s.drop_last(), delim).push(s.last())
    }
}

/// Splitting loses nothing: the segments joined with the delimiter are the
/// text again.
pub proof fn lemma_split_joins_back(s: Seq<char>, delim: char)
    ensures
        join_spec(split_spec(s, delim), delim) == s,
    decreases s.len(),
{
    if s.len() == 0 {
        assert(s =~= Seq::<char>::empty());
    } else {
        let front = s.drop_last();
        let before = split_spec(front, delim);
        lemma_split_joins_back(front, delim);
        lemma_split_len(front, delim);
        assert(front.push(s.last()) =~= s);
        if s.last() == delim {
            let parts = before.push(Seq::<char>::empty());
            assert(parts.drop_last() =~= before);
            assert(join_spec(parts, delim) =~= front.push(delim));
        } else {
            let grown = before.last().push(s.last());
            let parts = before.drop_last().push(grown);
            assert(parts.drop_last() =~= before.drop_last());
            if before.len() == 1 {
                assert(join_spec(parts, delim) =~= front.push(s.last()));
            } else {
                assert(join_spec(parts, delim) =~= join_spec(before, delim).push(s.last()));
            }
        }
    }
}

/// The segments written one after the other are the text without its
/// delimiters.
pub proof fn lemma_split_concat(s: Seq<char>, delim: char)
    ensures
        concat_spec(split_spec(s, delim)) == without_char(s, delim),
    decreases s.len(),
{
    if s.len() == 0 {
        let parts = seq![Seq::<char>::empty()];
        assert(parts.drop_last() =~= Seq::<Seq<char>>::empty());
        assert(concat_spec(parts.drop_last()) =~= Seq::<char>::empty());
        assert(parts.last() =~= Seq::<char>::empty());
        assert(concat_spec(parts) =~= Seq::<char>::empty());
    } else {
        let front = s.drop_last();
        let before = split_spec(front, delim);
        lemma_split_concat(front, delim);
        lemma_split_len(front, delim);
        if s.last() == delim {
            let parts = before.push(Seq::<char>::empty());
            assert(parts.drop_last() =~= before);
            assert(concat_spec(parts) =~= concat_spec(before));
        } else {
            let grown = before.last().push(s.last());
            let parts = before.drop_last().push(grown);
            assert(parts.drop_last() =~= before.drop_last());
            assert(concat_spec(parts) =~= concat_spec(before).push(s.last()));
        }
    }
}

/// Splits `s` on every occurrence of `delim`.
pub fn split<'a>(s: &'a str, delim: char) -> (parts: Vec<&'a str>)
    ensures
        views(parts@) == split_spec(s@, delim),
{
    let n = s.unicode_len();
    let mut parts: Vec<&'a str> = Vec::new();
    let mut start: usize = 0;
    let mut i: usize = 0;
    proof {
        assert(s@.take(0) =~= Seq::<char>::empty());
        assert(views(parts@).push(s@.subrange(0, 0)) =~= seq![Seq::<char>::empty()]);
    }
    while i < n
        invariant
            n == s@.len(),
            start <= i <= n,
            split_spec(s@.take(i as int), delim) == views(parts@).push(
                s@.subrange(start as int, i as int),
            ),
        decreases n - i,
    {
        let c = s.get_char(i);
        let ghost done = views(parts@);
        let ghost current = s@.subrange(start as int, i as int);
        proof {
            assert(s@.take(i + 1).drop_last() =~= s@.take(i as int));
            assert(s@.take(i + 1).last() == c);
            assert(done.push(current).drop_last() =~= done);
        }
        if c == delim {
            parts.push(s.substring_char(start, i));
            start = i + 1;
            proof {
                assert(views(parts@) =~= done.push(current));
                assert(s@.subrange(start as int, i + 1) =~= Seq::<char>::empty());
            }
        } else {
            proof {
                assert(current.push(c) =~= s@.subrange(start as int, i + 1));
            }
        }
        i += 1;
    }
    proof {
        assert(s@.take(n as int) =~= s@);
    }
    let ghost done = views(parts@);
    parts.push(s.substring_char(start, n));
    proof {
        assert(views(parts@) =~= done.push(s@.subrange(start as int, n as int)));
    }
    parts
}

/// Whether `s` begins with `prefix`.
pub fn has_prefix(s: &str, prefix: &str) -> (r: bool)
    ensures
        r == prefix@.is_prefix_of(s@),
{
    let n = prefix.unicode_len();
    if s.unicode_len() < n {
        return false;
    }
    let mut i: usize = 0;
    while i < n
        invariant
            n == prefix@.len(),
            n <= s@.len(),
            i <= n,
            forall|j: int| 0 <= j < i ==> s@[j] == prefix@[j],
        decreases n - i,
    {
        if s.get_char(i) != prefix.get_char(i) {
            proof {
                assert(s@.subrange(0, n as int)[i as int] == s@[i as int]);
            }
            return false;
        }
        i += 1;
    }
    proof {
        assert(prefix@ =~= s@.subrange(0, n as int));
    }
    true
}

/// Whether two texts are the same, character by character.
pub fn same_text(a: &str, b: &str) -> (r: bool)
    ensures
        r == (a@ == b@),
{
    if a.unicode_len() != b.unicode_len() {
        return false;
    }
    let r = has_prefix(a, b);
    proof {
        assert(a@.subrange(0, a@.len() as int) =~= a@);
    }
    r
}

/// `s` cut or padded with trailing spaces to exactly `width` characters.
pub open spec fn fit_spec(s: Seq<char>, width: nat) -> Seq<char> {
    if s.len() >= width {
        s.take(width as int)
    } else {
        s + Seq::new((width - s.len()) as nat, |i: int| ' ')
    }
}

/// Cuts `s`, or pads it with trailing spaces, to exactly `width` characters.
pub fn fit_width(s: &str, width: usize) -> (r: String)
    ensures
        r@ == fit_spec(s@, width as nat),
        r@.len() == width,
{
    let n = s.unicode_len();
    if n >= width {
        let cut = s.substring_char(0, width);
        String::from_str(cut)
    } else {
        let mut out = String::from_str(s);
        let mut k: usize = n;
        proof {
            reveal_strlit(" ");
            assert(s@ + Seq::new(0, |i: int| ' ') =~= s@);
        }
        while k < width
            invariant
                n == s@.len(),
                n <= k <= width,
                " "@ == seq![' '],
                out@ == s@ + Seq::new((k - n) as nat, |i: int| ' '),
            decreases width - k,
        {
            out.append(" ");
            proof {
                assert(out@ =~= s@ + Seq::new((k + 1 - n) as nat, |i: int| ' '));
            }
            k += 1;
        }
        out
    }
}

} // verus!
