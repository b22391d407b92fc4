//! Splitting a string into separator-delimited segments and joining them back.
//!
//! The pipeline reads job references as `/`-separated paths: the last segment
//! is the job token, the second-to-last the username. `split_on` and
//! `join_with` say exactly which segments a string has, following the
//! convention of `str::split`: the empty string has one empty segment, and
//! every separator occurrence starts a new segment.

use vstd::prelude::*;
use vstd::string::StrSliceExecFns;
use vstd::string::StringExecFns;

verus! {

/// The segments of `s` split on `sep`: always at least one segment, and one
/// more segment than there are separator occurrences.
pub open spec fn split_on(s: Seq<char>, sep: char) -> Seq<Seq<char>>
    decreases s.len(),
{
    if s.len() == 0 {
        seq![Seq::<char>::empty()]
    } else {
        let prev = split_on(s.drop_last(), sep);
        if s.last() == sep {
            prev.push(Seq::<char>::empty())
        } else {
            prev.update(prev.len() - 1, prev.last().push(s.last()))
        }
    }
}

/// The segments interleaved with the separator, the inverse of `split_on`.
pub open spec fn join_with(parts: Seq<Seq<char>>, sep: char) -> Seq<char>
    decreases parts.len(),
{
    if parts.len() == 0 {
        Seq::<char>::empty()
    } else if parts.len() == 1 {
        parts[0]
    } else {
        join_with(parts.drop_last(), sep) + seq![sep] + parts.last()
    }
}

pub fn split_str(s: &str, sep: char) -> (parts: Vec<String>)
    ensures
        parts.deep_view() == split_on(s@, sep),
        parts.len() >= 1,
{
    let mut parts: Vec<String> = Vec::new();
    let n = s.unicode_len();
    proof {
        assert(s@.take(0) =~= Seq::<char>::empty());
        assert(split_on(s@.take(0), sep) =~~= parts.deep_view().push(s@.subrange(0, 0)));
    }
    let mut start: usize = 0;
    let mut i: usize = 0;
    while i < n
        invariant
            start <= i <= n,
            n == s@.len(),
            split_on(s@.take(i as int), sep) == parts.deep_view().push(
                s@.subrange(start as int, i as int),
            ),
        decreases n - i,
    {
        let c = s.get_char(i);
        proof {
            assert(s@.take(i + 1).drop_last() =~= s@.take(i as int));
            assert(s@.take(i + 1).last() == s@[i as int]);
        }
        if c == sep {
            let piece = s.substring_char(start, i).to_owned();
            let ghost old_parts = parts.deep_view();
            parts.push(piece);
            proof {
                assert(parts.deep_view() =~= old_parts.push(piece@));
                assert(split_on(s@.take(i + 1), sep) =~~= parts.deep_view().push(
                    s@.subrange(i + 1, i + 1),
                ));
            }
            start = i + 1;
        } else {
            proof {
                let prev = split_on(s@.take(i as int), sep);
                assert(prev.last() == s@.subrange(start as int, i as int));
                assert(s@.subrange(start as int, i + 1) =~= s@.subrange(
                    start as int,
                    i as int,
                ).push(s@[i as int]));
                assert(split_on(s@.take(i + 1), sep) =~~= parts.deep_view().push(
                    s@.subrange(start as int, i + 1),
                ));
            }
        }
        i += 1;
    }
    let tail = s.substring_char(start, n).to_owned();
    let ghost old_parts = parts.deep_view();
    parts.push(tail);
    proof {
        assert(s@.take(n as int) =~= s@);
        assert(parts.deep_view() =~= old_parts.push(tail@));
    }
    parts
}

pub fn join_strings(parts: &Vec<String>, sep: &str) -> (r: String)
    requires
        sep@.len() == 1,
    ensures
        r@ == join_with(parts.deep_view(), sep@[0]),
{
    if parts.len() == 0 {
        return String::new();
    }
    let mut r: String = parts[0].clone();
    proof {
        assert(parts.deep_view().take(1) =~= seq![parts.deep_view()[0]]);
    }
    let mut k: usize = 1;
    while k < parts.len()
        invariant
            1 <= k <= parts.len(),
            parts.deep_view().len() == parts.len(),
            sep@.len() == 1,
            r@ == join_with(parts.deep_view().take(k as int), sep@[0]),
        decreases parts.len() - k,
    {
        r.append(sep);
        r.append(parts[k].as_str());
        proof {
            let dv = parts.deep_view();
            assert(dv.take(k + 1).drop_last() =~= dv.take(k as int));
            assert(dv.take(k + 1).last() == dv[k as int]);
            assert(sep@ =~= seq![sep@[0]]);
            assert(r@ =~= join_with(dv.take(k as int), sep@[0]) + seq![sep@[0]] + dv[k as int]);
        }
        k += 1;
    }
    proof {
        assert(parts.deep_view().take(parts.len() as int) =~= parts.deep_view());
    }
    r
}

} // verus!
