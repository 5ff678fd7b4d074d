//! Maps keyed by text, kept as vectors of entries in ascending key order.
use vstd::prelude::*;
use crate::text::{lemma_seq_lt_irreflexive, lemma_seq_lt_transitive, seq_lt, str_eq, str_lt};

verus! {

/// Keys ascend strictly, so each key occurs once.
pub open spec fn keys_sorted<V>(s: Seq<(String, V)>) -> bool {
    forall|i: int, j: int| 0 <= i < j < s.len() ==> seq_lt(#[trigger] s[i].0@, #[trigger] s[j].0@)
}

pub open spec fn key_at<V>(s: Seq<(String, V)>, i: int, k: Seq<char>) -> bool {
    0 <= i < s.len() && s[i].0@ == k
}

pub open spec fn has_key<V>(s: Seq<(String, V)>, k: Seq<char>) -> bool {
    exists|i: int| #[trigger] key_at(s, i, k)
}

/// The value stored under `k`.
pub open spec fn lookup<V>(s: Seq<(String, V)>, k: Seq<char>) -> Option<V> {
    if has_key(s, k) {
        Some(s[choose|i: int| #[trigger] key_at(s, i, k)].1)
    } else {
        None
    }
}

/// In a key-ordered map the entry holding a key is the one `lookup` reads.
pub proof fn lemma_lookup_at<V>(s: Seq<(String, V)>, i: int, k: Seq<char>)
    requires
        keys_sorted(s),
        key_at(s, i, k),
    ensures
        lookup(s, k) == Some(s[i].1),
{
    let j = choose|j: int| #[trigger] key_at(s, j, k);
    if i < j {
        assert(seq_lt(s[i].0@, s[j].0@));
        lemma_seq_lt_irreflexive(k);
    } else if j < i {
        assert(seq_lt(s[j].0@, s[i].0@));
        lemma_seq_lt_irreflexive(k);
    }
}

pub proof fn lemma_seq_lt_total(a: Seq<char>, b: Seq<char>)
    requires
        a != b,
    ensures
        seq_lt(a, b) || seq_lt(b, a),
    decreases a.len(),
{
    if a.len() > 0 && b.len() > 0 && a[0] == b[0] {
        if a.drop_first() == b.drop_first() {
            assert(a =~= seq![a[0]] + a.drop_first());
            assert(b =~= seq![b[0]] + b.drop_first());
        }
        lemma_seq_lt_total(a.drop_first(), b.drop_first());
    } else if a.len() == 0 && b.len() == 0 {
        assert(a =~= b);
    }
}

/// Position of key `k`.
pub fn find_key<V>(v: &Vec<(String, V)>, k: &str) -> (r: Option<usize>)
    ensures
        match r {
            Some(i) => key_at(v@, i as int, k@),
            None => !has_key(v@, k@),
        },
{
    let n = v.len();
    let mut i: usize = 0;
    while i < n
        invariant
            n == v@.len(),
            i <= n,
            forall|j: int| 0 <= j < i ==> !(#[trigger] key_at(v@, j, k@)),
        decreases n - i,
    {
        if str_eq(v[i].0.as_str(), k) {
            return Some(i);
        }
        i = i + 1;
    }
    None
}

/// Stores `val` under `k`, replacing what was there.
pub fn upsert<V>(v: &mut Vec<(String, V)>, k: String, val: V)
    requires
        keys_sorted(old(v)@),
    ensures
        keys_sorted(final(v)@),
        forall|q: Seq<char>| #[trigger]
            lookup(final(v)@, q) == if q == k@ {
                Some(val)
            } else {
                lookup(old(v)@, q)
            },
{
    let ghost s = v@;
    match find_key(v, k.as_str()) {
        Some(i) => {
            let _ = v.remove(i);
            v.insert(i, (k, val));
            proof {
                let t = v@;
                assert(t =~= s.update(i as int, (k, val)));
                assert forall|a: int, b: int| 0 <= a < b < t.len() implies seq_lt(
                    #[trigger] t[a].0@,
                    #[trigger] t[b].0@,
                ) by {
                    assert(seq_lt(s[a].0@, s[b].0@));
                }
                assert forall|q: Seq<char>| #[trigger]
                    lookup(t, q) == if q == k@ {
                        Some(val)
                    } else {
                        lookup(s, q)
                    } by {
                    if q == k@ {
                        assert(key_at(t, i as int, q));
                        lemma_lookup_at(t, i as int, q);
                    } else if has_key(s, q) {
                        let j = choose|j: int| #[trigger] key_at(s, j, q);
                        lemma_lookup_at(s, j, q);
                        assert(key_at(t, j, q));
                        lemma_lookup_at(t, j, q);
                    } else {
                        if has_key(t, q) {
                            let j = choose|j: int| #[trigger] key_at(t, j, q);
                            assert(key_at(s, j, q));
                        }
                    }
                }
            }
        },
        None => {
            let n = v.len();
            let mut p: usize = 0;
            while p < n && str_lt(v[p].0.as_str(), k.as_str())
                invariant
                    n == v@.len(),
                    v@ == s,
                    keys_sorted(s),
                    !has_key(s, k@),
                    p <= n,
                    forall|j: int| 0 <= j < p ==> seq_lt(#[trigger] s[j].0@, k@),
                decreases n - p,
            {
                p = p + 1;
            }
            proof {
                if p < n {
                    assert(!key_at(s, p as int, k@));
                    lemma_seq_lt_total(s[p as int].0@, k@);
                }
            }
            let ghost e = (k, val);
            v.insert(p, (k, val));
            proof {
                let t = v@;
                assert(t == s.insert(p as int, e));
                assert forall|a: int, b: int| 0 <= a < b < t.len() implies seq_lt(
                    #[trigger] t[a].0@,
                    #[trigger] t[b].0@,
                ) by {
                    if b < p {
                    } else if b == p {
                        assert(seq_lt(s[a].0@, k@));
                    } else if a == p {
                        if b - 1 > p {
                            lemma_seq_lt_transitive(k@, s[p as int].0@, s[b - 1].0@);
                        }
                    } else if a < p {
                        assert(seq_lt(s[a].0@, s[b - 1].0@));
                    } else {
                        assert(seq_lt(s[a - 1].0@, s[b - 1].0@));
                    }
                }
                assert forall|q: Seq<char>| #[trigger]
                    lookup(t, q) == if q == k@ {
                        Some(val)
                    } else {
                        lookup(s, q)
                    } by {
                    if q == k@ {
                        assert(key_at(t, p as int, q));
                        lemma_lookup_at(t, p as int, q);
                    } else if has_key(s, q) {
                        let j = choose|j: int| #[trigger] key_at(s, j, q);
                        lemma_lookup_at(s, j, q);
                        let j2 = if j < p {
                            j
                        } else {
                            j + 1
                        };
                        assert(key_at(t, j2, q));
                        lemma_lookup_at(t, j2, q);
                    } else {
                        if has_key(t, q) {
                            let j = choose|j: int| #[trigger] key_at(t, j, q);
                            if j < p {
                                assert(key_at(s, j, q));
                            } else if j > p {
                                assert(key_at(s, j - 1, q));
                            }
                        }
                    }
                }
            }
        },
    }
}

/// Removes the entry under `k`, giving back its value.
pub fn remove_key<V>(v: &mut Vec<(String, V)>, k: &str) -> (r: Option<V>)
    requires
        keys_sorted(old(v)@),
    ensures
        keys_sorted(final(v)@),
        r == lookup(old(v)@, k@),
        final(v)@.len() == old(v)@.len() - (if r is Some {
            1int
        } else {
            0int
        }),
        forall|q: Seq<char>| #[trigger]
            lookup(final(v)@, q) == if q == k@ {
                None
            } else {
                lookup(old(v)@, q)
            },
{
    let ghost s = v@;
    match find_key(v, k) {
        None => {
            proof {
                assert forall|q: Seq<char>| #[trigger]
                    lookup(s, q) == if q == k@ {
                        None
                    } else {
                        lookup(s, q)
                    } by {}
            }
            None
        },
        Some(i) => {
            let (_, val) = v.remove(i);
            proof {
                lemma_lookup_at(s, i as int, k@);
                let t = v@;
                assert(t == s.remove(i as int));
                assert forall|a: int, b: int| 0 <= a < b < t.len() implies seq_lt(
                    #[trigger] t[a].0@,
                    #[trigger] t[b].0@,
                ) by {
                    if b < i {
                    } else if a < i {
                        assert(seq_lt(s[a].0@, s[b + 1].0@));
                    } else {
                        assert(seq_lt(s[a + 1].0@, s[b + 1].0@));
                    }
                }
                assert forall|q: Seq<char>| #[trigger]
                    lookup(t, q) == if q == k@ {
                        None
                    } else {
                        lookup(s, q)
                    } by {
                    if q == k@ {
                        if has_key(t, q) {
                            let j = choose|j: int| #[trigger] key_at(t, j, q);
                            let j2 = if j < i {
                                j
                            } else {
                                j + 1
                            };
                            assert(key_at(s, j2, q));
                            lemma_lookup_at(s, j2, q);
                            assert(j2 == i) by {
                                if j2 < i {
                                    assert(seq_lt(s[j2].0@, s[i as int].0@));
                                    lemma_seq_lt_irreflexive(q);
                                } else if j2 > i {
                                    assert(seq_lt(s[i as int].0@, s[j2].0@));
                                    lemma_seq_lt_irreflexive(q);
                                }
                            }
                        }
                    } else if has_key(s, q) {
                        let j = choose|j: int| #[trigger] key_at(s, j, q);
                        lemma_lookup_at(s, j, q);
                        let j2 = if j < i {
                            j
                        } else {
                            j - 1
                        };
                        assert(key_at(t, j2, q));
                        lemma_lookup_at(t, j2, q);
                    } else {
                        if has_key(t, q) {
                            let j = choose|j: int| #[trigger] key_at(t, j, q);
                            let j2 = if j < i {
                                j
                            } else {
                                j + 1
                            };
                            assert(key_at(s, j2, q));
                        }
                    }
                }
            }
            Some(val)
        },
    }
}

} // verus!
