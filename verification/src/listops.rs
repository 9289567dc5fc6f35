use vstd::prelude::*;
use vstd::seq_lib::*;

verus! {

/// `s` with every occurrence of `x` removed, other elements kept in
/// order.  This is the model of value-removal on relationship lists
/// and on the liker list.
pub open spec fn seq_remove(s: Seq<u32>, x: u32) -> Seq<u32> {
    s.filter(|y: u32| y != x)
}

/// Removal distributes over appending one element.
pub proof fn lemma_seq_remove_push(s: Seq<u32>, x: u32, e: u32)
    ensures
        seq_remove(s.push(e), x) == if e == x {
            seq_remove(s, x)
        } else {
            seq_remove(s, x).push(e)
        },
{
    reveal(Seq::filter);
    assert(s.push(e).drop_last() =~= s);
    assert(s.push(e).last() == e);
}

/// Removing a value that does not occur changes nothing.
pub proof fn lemma_seq_remove_absent(s: Seq<u32>, x: u32)
    requires
        !s.contains(x),
    ensures
        seq_remove(s, x) == s,
    decreases s.len(),
{
    reveal(Seq::filter);
    if s.len() == 0 {
        assert(seq_remove(s, x) =~= s);
    } else {
        assert(!s.drop_last().contains(x)) by {
            if s.drop_last().contains(x) {
                let i = choose|i: int| 0 <= i < s.drop_last().len() && s.drop_last()[i] == x;
                assert(s[i] == x);
            }
        }
        lemma_seq_remove_absent(s.drop_last(), x);
        assert(s.last() != x) by {
            assert(s[s.len() - 1] == s.last());
        }
        assert(seq_remove(s, x) =~= s.drop_last().push(s.last()));
        assert(s.drop_last().push(s.last()) =~= s);
    }
}

/// What removal leaves behind: only and all the elements other than
/// `x`, never more of them than before.
pub proof fn lemma_seq_remove_props(s: Seq<u32>, x: u32)
    ensures
        seq_remove(s, x).len() <= s.len(),
        !seq_remove(s, x).contains(x),
        forall|y: u32| #[trigger] seq_remove(s, x).contains(y) <==> s.contains(y) && y != x,
    decreases s.len(),
{
    reveal(Seq::filter);
    broadcast use group_filter_ensures;

    if s.len() == 0 {
    } else {
        lemma_seq_remove_props(s.drop_last(), x);
        lemma_seq_remove_push(s.drop_last(), x, s.last());
        assert(s.drop_last().push(s.last()) =~= s);
        assert forall|y: u32| #[trigger] seq_remove(s, x).contains(y) implies s.contains(y) && y
            != x by {
            let r = seq_remove(s, x);
            let rp = seq_remove(s.drop_last(), x);
            let i = choose|i: int| 0 <= i < r.len() && r[i] == y;
            if s.last() != x && i == r.len() - 1 {
                assert(s.contains(s.last())) by {
                    assert(s[s.len() - 1] == s.last());
                }
            } else {
                assert(rp.contains(y)) by {
                    assert(rp[i] == y);
                }
            }
        }
        assert forall|y: u32| s.contains(y) && y != x implies #[trigger] seq_remove(s, x).contains(
            y,
        ) by {
            let i = choose|i: int| 0 <= i < s.len() && s[i] == y;
            let rp = seq_remove(s.drop_last(), x);
            if i < s.len() - 1 {
                assert(s.drop_last().contains(y)) by {
                    assert(s.drop_last()[i] == y);
                }
                assert(rp.contains(y));
                let j = choose|j: int| 0 <= j < rp.len() && rp[j] == y;
                if s.last() == x {
                    assert(seq_remove(s, x) == rp);
                    assert(seq_remove(s, x)[j] == y);
                } else {
                    assert(seq_remove(s, x) == rp.push(s.last()));
                    assert(rp.push(s.last())[j] == rp[j]);
                    assert(seq_remove(s, x)[j] == y);
                }
            } else {
                assert(s.last() == y);
                assert(seq_remove(s, x) == rp.push(y));
                let r = seq_remove(s, x);
                assert(r[r.len() - 1] == y);
            }
        }
    }
}

/// Removal keeps a duplicate-free list duplicate-free, and shortens it
/// by exactly one when the removed value occurred.
pub proof fn lemma_seq_remove_distinct(s: Seq<u32>, x: u32)
    requires
        s.no_duplicates(),
    ensures
        seq_remove(s, x).no_duplicates(),
        s.contains(x) ==> seq_remove(s, x).len() == s.len() - 1,
    decreases s.len(),
{
    reveal(Seq::filter);
    if s.len() == 0 {
    } else {
        assert(s.drop_last().no_duplicates());
        lemma_seq_remove_distinct(s.drop_last(), x);
        lemma_seq_remove_props(s.drop_last(), x);
        lemma_seq_remove_push(s.drop_last(), x, s.last());
        assert(s.drop_last().push(s.last()) =~= s);
        if s.last() != x {
            assert(!s.drop_last().contains(s.last())) by {
                if s.drop_last().contains(s.last()) {
                    let i = choose|i: int|
                        0 <= i < s.drop_last().len() && s.drop_last()[i] == s.last();
                    assert(s[i] == s[s.len() - 1]);
                }
            }
            let rp = seq_remove(s.drop_last(), x);
            assert(!rp.contains(s.last()));
            assert(rp.push(s.last()).no_duplicates()) by {
                assert forall|i: int, j: int|
                    0 <= i < rp.push(s.last()).len() && 0 <= j < rp.push(s.last()).len() && i
                        != j implies rp.push(s.last())[i] != rp.push(s.last())[j] by {
                    if i < rp.len() && j < rp.len() {
                    } else if j == rp.len() && i < rp.len() {
                        assert(rp[i] != s.last()) by {
                            if rp[i] == s.last() {
                                assert(rp.contains(s.last()));
                            }
                        }
                    } else if i == rp.len() && j < rp.len() {
                        assert(rp[j] != s.last()) by {
                            if rp[j] == s.last() {
                                assert(rp.contains(s.last()));
                            }
                        }
                    }
                }
            }
        }
        if s.contains(x) {
            let i = choose|i: int| 0 <= i < s.len() && s[i] == x;
            if s.last() == x {
                assert(!s.drop_last().contains(x)) by {
                    if s.drop_last().contains(x) {
                        let j = choose|j: int|
                            0 <= j < s.drop_last().len() && s.drop_last()[j] == x;
                        assert(s[j] == s[s.len() - 1]);
                    }
                }
                lemma_seq_remove_absent(s.drop_last(), x);
            } else {
                assert(s.drop_last().contains(x)) by {
                    assert(s.drop_last()[i] == x);
                }
            }
        }
    }
}

/// Appending an element that does not yet occur keeps a list
/// duplicate-free.
pub proof fn lemma_push_distinct<A>(s: Seq<A>, e: A)
    requires
        s.no_duplicates(),
        !s.contains(e),
    ensures
        s.push(e).no_duplicates(),
{
    assert forall|i: int, j: int|
        0 <= i < s.push(e).len() && 0 <= j < s.push(e).len() && i != j implies s.push(e)[i]
        != s.push(e)[j] by {
        if i < s.len() && j == s.len() {
            assert(s[i] != e) by {
                if s[i] == e {
                    assert(s.contains(e));
                }
            }
        } else if j < s.len() && i == s.len() {
            assert(s[j] != e) by {
                if s[j] == e {
                    assert(s.contains(e));
                }
            }
        }
    }
}

/// The position of the first occurrence of `name` in `l`, or -1 when
/// it does not occur.
pub open spec fn first_index(l: Seq<Seq<char>>, name: Seq<char>) -> int
    decreases l.len(),
{
    if l.len() == 0 {
        -1
    } else if l[0] == name {
        0
    } else {
        let r = first_index(l.drop_first(), name);
        if r == -1 {
            -1
        } else {
            r + 1
        }
    }
}

/// Where `first_index` lands: inside the list, on a match, with no
/// match before it; or at -1 exactly when nothing matches.
pub proof fn lemma_first_index_props(l: Seq<Seq<char>>, name: Seq<char>)
    ensures
        -1 <= first_index(l, name) < l.len(),
        first_index(l, name) >= 0 ==> l[first_index(l, name)] == name,
        first_index(l, name) >= 0 ==> forall|j: int| 0 <= j < first_index(l, name) ==> l[j] != name,
        first_index(l, name) == -1 <==> (forall|j: int| 0 <= j < l.len() ==> l[j] != name),
    decreases l.len(),
{
    if l.len() == 0 {
    } else if l[0] == name {
    } else {
        lemma_first_index_props(l.drop_first(), name);
        let rest = l.drop_first();
        let r = first_index(rest, name);
        assert(forall|j: int| 0 <= j < rest.len() ==> rest[j] == l[j + 1]);
        if r >= 0 {
            assert(l[r + 1] == rest[r]);
            assert forall|j: int| 0 <= j < r + 1 implies l[j] != name by {
                if j > 0 {
                    assert(l[j] == rest[j - 1]);
                }
            }
        } else {
            assert forall|j: int| 0 <= j < l.len() implies l[j] != name by {
                if j > 0 {
                    assert(l[j] == rest[j - 1]);
                }
            }
        }
    }
}

/// A match at `i` with no match before it pins `first_index` to `i`.
pub proof fn lemma_first_index_found(l: Seq<Seq<char>>, name: Seq<char>, i: int)
    requires
        0 <= i < l.len(),
        l[i] == name,
        forall|j: int| 0 <= j < i ==> l[j] != name,
    ensures
        first_index(l, name) == i,
    decreases i,
{
    if i == 0 {
    } else {
        assert(l[0] != name);
        assert(forall|j: int| 0 <= j < l.drop_first().len() ==> l.drop_first()[j] == l[j + 1]);
        lemma_first_index_found(l.drop_first(), name, i - 1);
    }
}

/// Whether `x` occurs in `v`.
pub fn vec_contains_u32(v: &Vec<u32>, x: u32) -> (r: bool)
    ensures
        r == v@.contains(x),
{
    let mut i: usize = 0;
    while i < v.len()
        invariant
            0 <= i <= v@.len(),
            forall|j: int| 0 <= j < i ==> v@[j] != x,
        decreases v@.len() - i,
    {
        if v[i] == x {
            assert(v@.contains(x)) by {
                assert(v@[i as int] == x);
            }
            return true;
        }
        i = i + 1;
    }
    return false;
}

/// A fresh vector with the same elements as `v`, in order.
pub fn copy_ids(v: &Vec<u32>) -> (r: Vec<u32>)
    ensures
        r@ == v@,
{
    let n = v.len();
    let mut out: Vec<u32> = Vec::new();
    let mut i: usize = 0;
    while i < n
        invariant
            n == v@.len(),
            0 <= i <= n,
            out@ == v@.subrange(0, i as int),
        decreases n - i,
    {
        proof {
            assert(v@.subrange(0, i + 1 as int) =~= v@.subrange(0, i as int).push(v@[i as int]));
        }
        out.push(v[i]);
        i = i + 1;
    }
    assert(v@.subrange(0, n as int) =~= v@);
    out
}

/// Removes every occurrence of `x` from `v`, keeping the other
/// elements in order.
pub fn vec_remove_val(v: &mut Vec<u32>, x: u32)
    ensures
        final(v)@ == seq_remove(old(v)@, x),
{
    let n = v.len();
    let mut out: Vec<u32> = Vec::new();
    let mut i: usize = 0;
    assert(out@ =~= seq_remove(old(v)@.subrange(0, 0), x)) by {
        reveal(Seq::filter);
    }
    while i < n
        invariant
            n == v@.len(),
            v@ == old(v)@,
            0 <= i <= n,
            out@ == seq_remove(v@.subrange(0, i as int), x),
        decreases n - i,
    {
        proof {
            assert(v@.subrange(0, i + 1 as int) =~= v@.subrange(0, i as int).push(v@[i as int]));
            lemma_seq_remove_push(v@.subrange(0, i as int), x, v@[i as int]);
        }
        let e = v[i];
        if e != x {
            out.push(e);
        }
        i = i + 1;
    }
    assert(v@.subrange(0, n as int) =~= v@);
    *v = out;
}

} // verus!
