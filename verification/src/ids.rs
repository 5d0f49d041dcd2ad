//! Identifier lists: ordering and deduplicating the ids a query should load.
use vstd::prelude::*;

verus! {

/// Strictly increasing: sorted, with no repeats.
pub open spec fn strictly_increasing(s: Seq<u128>) -> bool {
    forall|i: int, j: int| 0 <= i < j < s.len() ==> s[i] < s[j]
}

/// Sorts `ids` and drops repeated values: the result lists each id of the input exactly
/// once, in increasing order.
pub fn sorted_unique_ids(ids: &Vec<u128>) -> (r: Vec<u128>)
    ensures
        strictly_increasing(r@),
        forall|x: u128| r@.contains(x) <==> ids@.contains(x),
{
    let mut out: Vec<u128> = Vec::new();
    let n = ids.len();
    for k in 0..n
        invariant
            n == ids@.len(),
            strictly_increasing(out@),
            forall|x: u128| out@.contains(x) <==> ids@.take(k as int).contains(x),
    {
        let x = ids[k];
        let mut pos: usize = 0;
        let m = out.len();
        while pos < m && out[pos] < x
            invariant
                m == out@.len(),
                n == ids@.len(),
                k < n,
                strictly_increasing(out@),
                forall|y: u128| out@.contains(y) <==> ids@.take(k as int).contains(y),
                pos <= m,
                forall|i: int| 0 <= i < pos ==> out@[i] < x,
            decreases m - pos,
        {
            pos = pos + 1;
        }
        let ghost before = out@;
        assert(forall|y: u128| before.contains(y) <==> ids@.take(k as int).contains(y));
        if pos < m && out[pos] == x {
            assert(before[pos as int] == x);
            assert(before.contains(x));
            assert forall|y: u128| out@.contains(y) <==> (before.contains(y) || y == x) by {}
        } else {
            out.insert(pos, x);
            assert(out@ == before.take(pos as int).push(x) + before.skip(pos as int));
            assert forall|i: int, j: int| 0 <= i < j < out@.len() implies out@[i] < out@[j] by {
                if j < pos {
                    assert(out@[i] == before[i] && out@[j] == before[j]);
                } else if j == pos {
                    assert(out@[i] == before[i]);
                } else if i < pos {
                    assert(out@[j] == before[j - 1]);
                    assert(before[j - 1] >= before[pos as int] || j - 1 == pos);
                } else if i == pos {
                    assert(out@[j] == before[j - 1]);
                    assert(before[j - 1] >= before[pos as int]);
                } else {
                    assert(out@[i] == before[i - 1] && out@[j] == before[j - 1]);
                }
            }
            assert forall|y: u128| out@.contains(y) <==> (before.contains(y) || y == x) by {
                if out@.contains(y) {
                    let i = choose|i: int| 0 <= i < out@.len() && out@[i] == y;
                    if i < pos {
                        assert(before[i] == y);
                    } else if i > pos {
                        assert(before[i - 1] == y);
                    }
                }
                if before.contains(y) {
                    let i = choose|i: int| 0 <= i < before.len() && before[i] == y;
                    if i < pos {
                        assert(out@[i] == y);
                    } else {
                        assert(out@[i + 1] == y);
                    }
                }
                if y == x {
                    assert(out@[pos as int] == x);
                }
            }
        }
        let ghost prev = ids@.take(k as int);
        let ghost next = ids@.take(k + 1);
        assert(next == prev.push(x));
        assert forall|y: u128| next.contains(y) <==> (prev.contains(y) || y == x) by {
            if next.contains(y) {
                let i = choose|i: int| 0 <= i < next.len() && next[i] == y;
                if i < k {
                    assert(prev[i] == y);
                }
            }
            if prev.contains(y) {
                let i = choose|i: int| 0 <= i < prev.len() && prev[i] == y;
                assert(next[i] == y);
            }
            if y == x {
                assert(next[k as int] == x);
            }
        }
        assert forall|y: u128| out@.contains(y) <==> next.contains(y) by {
            assert(before.contains(y) <==> prev.contains(y));
        }
    }
    assert(ids@.take(n as int) == ids@);
    out
}

} // verus!
