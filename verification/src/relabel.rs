//! Canonical relabeling of identifier sequences.
//!
//! Two runs of the same scenario may hand out different concrete identifiers
//! (process ids, handle numbers).  To compare identifier collections up to
//! such renaming, every raw value is replaced by a dense label assigned in
//! order of first appearance: `[5, 5, 7]` becomes `[0, 0, 1]`, and so does
//! `[102, 102, 55]`, while `[5, 7, 5]` becomes `[0, 1, 0]`.

use vstd::prelude::*;

verus! {

use vstd::relations::injective;

/// The distinct raw values of `s`, in order of first appearance.
pub open spec fn firsts(s: Seq<usize>) -> Seq<usize>
    decreases s.len(),
{
    if s.len() == 0 {
        Seq::empty()
    } else {
        let p = firsts(s.drop_last());
        if p.contains(s.last()) {
            p
        } else {
            p.push(s.last())
        }
    }
}

/// The first index at which `v` occurs in `f`, or `f.len()` when it does not
/// occur at all.
pub open spec fn rank(f: Seq<usize>, v: usize) -> int
    decreases f.len(),
{
    if f.len() == 0 {
        0
    } else if f[0] == v {
        0
    } else {
        1 + rank(f.drop_first(), v)
    }
}

/// The canonical relabeling of `s`: each element replaced by the dense label
/// that its raw value received in order of first appearance.
pub open spec fn canon(s: Seq<usize>) -> Seq<usize> {
    Seq::new(s.len(), |i: int| rank(firsts(s), s[i]) as usize)
}

/// `rank` is the first index of `v` in `f`.
pub proof fn lemma_rank_first(f: Seq<usize>, v: usize)
    ensures
        0 <= rank(f, v) <= f.len(),
        f.contains(v) ==> rank(f, v) < f.len() && f[rank(f, v)] == v,
        !f.contains(v) ==> rank(f, v) == f.len(),
        forall|k: int| 0 <= k < rank(f, v) ==> f[k] != v,
    decreases f.len(),
{
    if f.len() == 0 {
    } else if f[0] == v {
        assert(f.contains(v));
    } else {
        let d = f.drop_first();
        lemma_rank_first(d, v);
        assert(f.contains(v) ==> d.contains(v)) by {
            if f.contains(v) {
                let i = choose|i: int| 0 <= i < f.len() && f[i] == v;
                assert(d[i - 1] == v);
                assert(d.contains(v));
            }
        };
        assert(d.contains(v) ==> f.contains(v)) by {
            if d.contains(v) {
                let i = choose|i: int| 0 <= i < d.len() && d[i] == v;
                assert(f[i + 1] == v);
            }
        };
        assert forall|k: int| 0 <= k < rank(f, v) implies f[k] != v by {
            if k > 0 {
                assert(d[k - 1] != v);
            }
        };
    }
}

/// Pushing a new value onto `f` leaves the rank of everything already in `f`
/// unchanged, and ranks the new value at the old length.
pub proof fn lemma_rank_push(f: Seq<usize>, w: usize, v: usize)
    ensures
        f.contains(v) ==> rank(f.push(w), v) == rank(f, v),
        !f.contains(v) && v == w ==> rank(f.push(w), v) == f.len(),
    decreases f.len(),
{
    if f.len() == 0 {
        assert(f.push(w)[0] == w);
    } else {
        let d = f.drop_first();
        lemma_rank_push(d, w, v);
        assert(f.push(w).drop_first() =~= d.push(w));
        assert(f.contains(v) ==> f[0] == v || d.contains(v)) by {
            if f.contains(v) && f[0] != v {
                let i = choose|i: int| 0 <= i < f.len() && f[i] == v;
                assert(d[i - 1] == v);
                assert(d.contains(v));
            }
        };
        assert(d.contains(v) ==> f.contains(v)) by {
            if d.contains(v) {
                let i = choose|i: int| 0 <= i < d.len() && d[i] == v;
                assert(f[i + 1] == v);
            }
        };
        assert(f[0] == v ==> f.contains(v));
        assert(f.push(w)[0] == f[0]);
    }
}

/// There are never more first appearances than elements.
pub proof fn lemma_firsts_len(s: Seq<usize>)
    ensures
        firsts(s).len() <= s.len(),
    decreases s.len(),
{
    if s.len() > 0 {
        lemma_firsts_len(s.drop_last());
    }
}

/// How one more element extends the list of first appearances.
pub proof fn lemma_firsts_step(s: Seq<usize>, i: int)
    requires
        0 <= i < s.len(),
    ensures
        firsts(s.take(i + 1)) == if firsts(s.take(i)).contains(s[i]) {
            firsts(s.take(i))
        } else {
            firsts(s.take(i)).push(s[i])
        },
{
    let t = s.take(i + 1);
    assert(t.drop_last() =~= s.take(i));
    assert(t.last() == s[i]);
}

/// Finds the first index holding `x`, scanning left to right.
fn find_first(v: &Vec<usize>, x: usize) -> (r: Option<usize>)
    ensures
        match r {
            Some(j) => (j as int) < v@.len() && v@[j as int] == x && forall|k: int|
                0 <= k < j ==> v@[k] != x,
            None => forall|k: int| 0 <= k < v@.len() ==> v@[k] != x,
        },
{
    let mut i: usize = 0;
    while i < v.len()
        invariant
            i <= v@.len(),
            forall|k: int| 0 <= k < i ==> v@[k] != x,
        decreases v@.len() - i,
    {
        if v[i] == x {
            return Some(i);
        }
        i = i + 1;
    }
    None
}

/// Computes the canonical relabeling of a vector of raw identifiers.
pub fn relabel(v: &Vec<usize>) -> (r: Vec<usize>)
    ensures
        r@ == canon(v@),
{
    let mut seen: Vec<usize> = Vec::new();
    let mut out: Vec<usize> = Vec::new();
    let mut i: usize = 0;
    while i < v.len()
        invariant
            i <= v@.len(),
            seen@ == firsts(v@.take(i as int)),
            out@.len() == i,
            forall|j: int| 0 <= j < i ==> #[trigger] (out@[j] as int) == rank(seen@, v@[j]),
            forall|j: int| 0 <= j < i ==> seen@.contains(#[trigger] v@[j]),
        decreases v@.len() - i,
    {
        let x = v[i];
        let ghost old_seen = seen@;
        let ghost old_out = out@;
        proof {
            lemma_firsts_step(v@, i as int);
        }
        match find_first(&seen, x) {
            Some(j) => {
                proof {
                    lemma_rank_first(seen@, x);
                    assert(seen@[j as int] == x);
                    assert(seen@.contains(x));
                }
                out.push(j);
                proof {
                    assert(rank(seen@, x) == j as int) by {
                        let rk = rank(seen@, x);
                        if rk < j as int {
                            assert(seen@[rk] != x);
                        } else if rk > j as int {
                            assert(seen@[j as int] != x);
                        }
                    };
                    assert(seen@ == firsts(v@.take(i + 1)));
                    assert forall|k: int| 0 <= k < i + 1 implies #[trigger] (out@[k] as int)
                        == rank(seen@, v@[k]) by {
                        if k < i {
                            assert(out@[k] == old_out[k]);
                        } else {
                            assert(out@[k] == j);
                        }
                    };
                }
            },
            None => {
                proof {
                    assert(!seen@.contains(x)) by {
                        if seen@.contains(x) {
                            let k = choose|k: int| 0 <= k < seen@.len() && seen@[k] == x;
                            assert(seen@[k] != x);
                        }
                    };
                }
                let n = seen.len();
                out.push(n);
                seen.push(x);
                proof {
                    lemma_rank_push(old_seen, x, x);
                    assert(seen@ == old_seen.push(x));
                    assert(rank(seen@, x) == old_seen.len());
                    assert(seen@[old_seen.len() as int] == x);
                    assert(seen@.contains(x));
                    assert forall|k: int| 0 <= k < i + 1 implies #[trigger] (out@[k] as int)
                        == rank(seen@, v@[k]) by {
                        if k < i {
                            assert(out@[k] == old_out[k]);
                            assert((old_out[k] as int) == rank(old_seen, v@[k]));
                            assert(old_seen.contains(v@[k]));
                            lemma_rank_push(old_seen, x, v@[k]);
                        } else {
                            assert(out@[k] == n);
                        }
                    };
                    assert forall|k: int| 0 <= k < i + 1 implies seen@.contains(
                        #[trigger] v@[k],
                    ) by {
                        if k < i {
                            assert(old_seen.contains(v@[k]));
                            let m = choose|m: int| 0 <= m < old_seen.len() && old_seen[m] == v@[k];
                            assert(seen@[m] == v@[k]);
                        }
                    };
                }
            },
        }
        i = i + 1;
        proof {
            assert(forall|j: int| 0 <= j < i ==> v@.take(i as int)[j] == v@[j]);
        }
    }
    proof {
        assert(v@.take(i as int) =~= v@);
        assert forall|j: int| 0 <= j < v@.len() implies out@[j] == canon(v@)[j] by {
            lemma_rank_first(seen@, v@[j]);
        };
        assert(out@ =~= canon(v@));
    }
    out
}

/// Renaming the raw identifiers through any injective map leaves the list of
/// first appearances renamed the same way.
pub proof fn lemma_firsts_map(s: Seq<usize>, f: spec_fn(usize) -> usize)
    requires
        injective(f),
    ensures
        firsts(s.map_values(f)) == firsts(s).map_values(f),
    decreases s.len(),
{
    let m = s.map_values(f);
    if s.len() == 0 {
        assert(firsts(m) =~= firsts(s).map_values(f));
    } else {
        let d = s.drop_last();
        lemma_firsts_map(d, f);
        assert(m.drop_last() =~= d.map_values(f));
        assert(m.last() == f(s.last()));
        let fd = firsts(d);
        assert(fd.map_values(f).contains(f(s.last())) <==> fd.contains(s.last())) by {
            if fd.contains(s.last()) {
                let i = choose|i: int| 0 <= i < fd.len() && fd[i] == s.last();
                assert(fd.map_values(f)[i] == f(s.last()));
                assert(fd.map_values(f).contains(f(s.last())));
            }
            if fd.map_values(f).contains(f(s.last())) {
                let i = choose|i: int|
                    0 <= i < fd.map_values(f).len() && fd.map_values(f)[i] == f(s.last());
                assert(f(fd[i]) == f(s.last()));
                assert(fd[i] == s.last());
                assert(fd.contains(s.last()));
            }
        };
        if fd.contains(s.last()) {
            assert(firsts(m) == fd.map_values(f));
            assert(firsts(s) == fd);
        } else {
            assert(firsts(m) == fd.map_values(f).push(f(s.last())));
            assert(firsts(s) == fd.push(s.last()));
            assert(firsts(s).map_values(f) =~= fd.map_values(f).push(f(s.last())));
        }
    }
}

/// Renaming through any injective map leaves every rank unchanged.
pub proof fn lemma_rank_map(fs: Seq<usize>, f: spec_fn(usize) -> usize, v: usize)
    requires
        injective(f),
    ensures
        rank(fs.map_values(f), f(v)) == rank(fs, v),
    decreases fs.len(),
{
    let m = fs.map_values(f);
    if fs.len() == 0 {
    } else if fs[0] == v {
        assert(m[0] == f(v));
    } else {
        assert(m[0] == f(fs[0]));
        assert(m[0] != f(v));
        lemma_rank_map(fs.drop_first(), f, v);
        assert(m.drop_first() =~= fs.drop_first().map_values(f));
    }
}

/// Canonical relabeling is invariant under injective renaming of the raw
/// identifiers: the relabeled copy of a sequence canonicalizes to exactly the
/// same labels as the sequence itself.
pub proof fn lemma_canon_relabel(s: Seq<usize>, f: spec_fn(usize) -> usize)
    requires
        injective(f),
    ensures
        canon(s.map_values(f)) == canon(s),
{
    let m = s.map_values(f);
    lemma_firsts_map(s, f);
    assert forall|i: int| 0 <= i < s.len() implies canon(m)[i] == canon(s)[i] by {
        assert(m[i] == f(s[i]));
        lemma_rank_map(firsts(s), f, s[i]);
        lemma_rank_first(firsts(s), s[i]);
        lemma_firsts_len(s);
    };
    assert(canon(m) =~= canon(s));
}

} // verus!
