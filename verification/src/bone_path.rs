//! Hierarchical bone paths such as `root/pelvis/spine_01`: splitting a path
//! into its bone names.

use vstd::prelude::*;
use vstd::string::*;

verus! {

/// The separator between bone names in a path.
pub open spec fn is_separator(c: char) -> bool {
    c == '/'
}

/// The pieces of `s` between separators, in order. A string without
/// separators is one piece (possibly empty), and every separator starts a new
/// piece.
pub open spec fn split_path_spec(s: Seq<char>) -> Seq<Seq<char>>
    decreases s.len(),
{
    if s.len() == 0 {
        seq![Seq::<char>::empty()]
    } else {
        let init = split_path_spec(s.drop_last());
        if is_separator(s.last()) {
            init.push(Seq::<char>::empty())
        } else {
            init.update(init.len() - 1, init.last().push(s.last()))
        }
    }
}

/// The pieces joined back together with a separator between neighbours.
pub open spec fn join_path(pieces: Seq<Seq<char>>) -> Seq<char>
    decreases pieces.len(),
{
    if pieces.len() == 0 {
        Seq::<char>::empty()
    } else if pieces.len() == 1 {
        pieces[0]
    } else {
        join_path(pieces.drop_last()).push('/') + pieces.last()
    }
}

/// Splitting always yields at least one piece.
pub proof fn lemma_split_path_nonempty(s: Seq<char>)
    ensures
        split_path_spec(s).len() >= 1,
    decreases s.len(),
{
    if s.len() > 0 {
        lemma_split_path_nonempty(s.drop_last());
    }
}

/// Splitting loses nothing and keeps no separator: the pieces joined with
/// separators give back the path, and no piece holds a separator.
pub proof fn lemma_split_path_join(s: Seq<char>)
    ensures
        join_path(split_path_spec(s)) == s,
        forall|i: int, j: int|
            0 <= i < split_path_spec(s).len() && 0 <= j < split_path_spec(s)[i].len()
                ==> !is_separator(#[trigger] split_path_spec(s)[i][j]),
    decreases s.len(),
{
    if s.len() > 0 {
        let t = s.drop_last();
        lemma_split_path_join(t);
        lemma_split_path_nonempty(t);
        let init = split_path_spec(t);
        let n = init.len();
        if is_separator(s.last()) {
            assert(split_path_spec(s).drop_last() =~= init);
            assert(join_path(split_path_spec(s)) =~= s);
        } else {
            let r = split_path_spec(s);
            if n == 1 {
                assert(r =~= seq![init[0].push(s.last())]);
                assert(join_path(r) == r[0]);
                assert(s =~= t.push(s.last()));
            } else {
                let head = join_path(init.drop_last()).push('/');
                assert(r.drop_last() =~= init.drop_last());
                assert(r.last() == init.last().push(s.last()));
                assert(join_path(init) == head + init.last());
                assert(join_path(r) == head + init.last().push(s.last()));
                assert(s =~= t.push(s.last()));
                assert(head + init.last().push(s.last()) =~= (head + init.last()).push(s.last()));
            }
        }
    }
}

/// A string without separators is a single piece.
pub proof fn lemma_split_path_no_separator(s: Seq<char>)
    requires
        forall|i: int| 0 <= i < s.len() ==> !is_separator(#[trigger] s[i]),
    ensures
        split_path_spec(s) == seq![s],
    decreases s.len(),
{
    if s.len() > 0 {
        let t = s.drop_last();
        assert forall|i: int| 0 <= i < t.len() implies !is_separator(#[trigger] t[i]) by {
            assert(t[i] == s[i]);
        }
        lemma_split_path_no_separator(t);
        assert(s =~= t.push(s.last()));
        assert(split_path_spec(s) =~= seq![s]);
    } else {
        assert(s =~= Seq::<char>::empty());
        assert(split_path_spec(s) =~= seq![s]);
    }
}

/// Joining two strings with a separator joins their pieces.
pub proof fn lemma_split_path_append(a: Seq<char>, b: Seq<char>)
    ensures
        split_path_spec(a.push('/') + b) == split_path_spec(a) + split_path_spec(b),
    decreases b.len(),
{
    let s = a.push('/') + b;
    if b.len() == 0 {
        assert(s =~= a.push('/'));
        assert(s.drop_last() =~= a);
        assert(split_path_spec(s) =~= split_path_spec(a) + split_path_spec(b));
    } else {
        let b0 = b.drop_last();
        lemma_split_path_append(a, b0);
        lemma_split_path_nonempty(b0);
        assert(s.drop_last() =~= a.push('/') + b0);
        assert(s.last() == b.last());
        let x = split_path_spec(a);
        let y = split_path_spec(b0);
        if is_separator(b.last()) {
            assert((x + y).push(Seq::<char>::empty()) =~= x + y.push(Seq::<char>::empty()));
        } else {
            let c = b.last();
            assert((x + y).update((x + y).len() - 1, (x + y).last().push(c)) =~= x + y.update(
                y.len() - 1,
                y.last().push(c),
            ));
        }
    }
}

/// A string with a separator at `i` splits into the pieces before it
/// followed by the pieces after it.
pub proof fn lemma_split_path_at(s: Seq<char>, i: int)
    requires
        0 <= i < s.len(),
        is_separator(s[i]),
    ensures
        split_path_spec(s) == split_path_spec(s.take(i)) + split_path_spec(s.skip(i + 1)),
{
    assert(s =~= s.take(i).push('/') + s.skip(i + 1));
    lemma_split_path_append(s.take(i), s.skip(i + 1));
}

/// Splits a bone path at every `/` into its bone names, as `str::split`
/// does.
pub fn split_path(path: &str) -> (r: Vec<String>)
    ensures
        r.deep_view() == split_path_spec(path@),
{
    let n = path.unicode_len();
    let mut segments: Vec<String> = Vec::new();
    let mut start: usize = 0;
    let mut i: usize = 0;
    proof {
        assert(path@.take(0) =~= Seq::<char>::empty());
        assert(segments.deep_view() =~= Seq::<Seq<char>>::empty());
        assert(path@.subrange(0, 0) =~= Seq::<char>::empty());
    }
    while i < n
        invariant
            n == path@.len(),
            start <= i <= n,
            split_path_spec(path@.take(i as int)) == segments.deep_view().push(
                path@.subrange(start as int, i as int),
            ),
        decreases n - i,
    {
        let c = path.get_char(i);
        let ghost prev = segments.deep_view();
        proof {
            assert(path@.take(i + 1).drop_last() =~= path@.take(i as int));
            assert(path@.take(i + 1).last() == c);
        }
        if c == '/' {
            let ghost old_start = start;
            let piece = String::from_str(path.substring_char(start, i));
            segments.push(piece);
            start = i + 1;
            proof {
                assert(segments.deep_view() =~= prev.push(path@.subrange(old_start as int, i as int)));
                assert(path@.subrange(start as int, i + 1) =~= Seq::<char>::empty());
            }
        } else {
            proof {
                assert(path@.subrange(start as int, i + 1) =~= path@.subrange(
                    start as int,
                    i as int,
                ).push(c));
            }
        }
        i = i + 1;
    }
    let ghost prev = segments.deep_view();
    let last = String::from_str(path.substring_char(start, n));
    segments.push(last);
    proof {
        assert(path@.take(n as int) =~= path@);
        assert(segments.deep_view() =~= prev.push(path@.subrange(start as int, n as int)));
    }
    segments
}

} // verus!
