//! Sequences of identities: membership, duplicate detection and removal.
use vstd::prelude::*;

use crate::pubkey::{
    key_less, key_lt, keys_equal, lemma_key_lt_irreflexive, lemma_key_lt_total,
    lemma_key_lt_transitive, Pubkey,
};

verus! {

/// The predicate that keeps every identity but `k`.
pub open spec fn not_key(k: Pubkey) -> spec_fn(Pubkey) -> bool {
    |x: Pubkey| x != k
}

/// `s` with every occurrence of `k` taken out, order otherwise kept.
pub open spec fn remove_key(s: Seq<Pubkey>, k: Pubkey) -> Seq<Pubkey> {
    s.filter(not_key(k))
}

/// `s` with `k` appended unless it already holds it.
pub open spec fn add_key(s: Seq<Pubkey>, k: Pubkey) -> Seq<Pubkey> {
    if s.contains(k) {
        s
    } else {
        s.push(k)
    }
}

/// `s` is strictly ascending in the byte-wise order of identities.
pub open spec fn keys_ascending(s: Seq<Pubkey>) -> bool {
    forall|i: int, j: int| 0 <= i < j < s.len() ==> key_lt(#[trigger] s[i], #[trigger] s[j])
}

/// Where `k` goes in `s`: after the leading identities that come before it.
pub open spec fn insert_position(s: Seq<Pubkey>, k: Pubkey) -> int
    decreases s.len(),
{
    if s.len() == 0 {
        0
    } else if key_lt(s[0], k) {
        1 + insert_position(s.drop_first(), k)
    } else {
        0
    }
}

/// `s` with `k` inserted at its place in the byte-wise order.
pub open spec fn sorted_insert(s: Seq<Pubkey>, k: Pubkey) -> Seq<Pubkey> {
    s.insert(insert_position(s, k), k)
}

pub proof fn lemma_sorted_insert_len(s: Seq<Pubkey>, k: Pubkey)
    ensures
        sorted_insert(s, k).len() == s.len() + 1,
{
    lemma_insert_position(s, k);
}

pub proof fn lemma_insert_position(s: Seq<Pubkey>, k: Pubkey)
    ensures
        0 <= insert_position(s, k) <= s.len(),
        forall|j: int| 0 <= j < insert_position(s, k) ==> key_lt(#[trigger] s[j], k),
        insert_position(s, k) < s.len() ==> !key_lt(s[insert_position(s, k)], k),
    decreases s.len(),
{
    if s.len() > 0 && key_lt(s[0], k) {
        let t = s.drop_first();
        lemma_insert_position(t, k);
        assert forall|j: int| 0 <= j < insert_position(s, k) implies key_lt(#[trigger] s[j], k) by {
            if j > 0 {
                assert(s[j] == t[j - 1]);
            }
        }
        if insert_position(s, k) < s.len() {
            assert(s[insert_position(s, k)] == t[insert_position(t, k)]);
        }
    }
}

/// Inserting an identity that is not yet present keeps a sequence ascending,
/// adds exactly that identity, and lists nothing twice.
pub proof fn lemma_sorted_insert(s: Seq<Pubkey>, k: Pubkey)
    requires
        keys_ascending(s),
        !s.contains(k),
    ensures
        keys_ascending(sorted_insert(s, k)),
        forall|x: Pubkey| #[trigger] sorted_insert(s, k).contains(x) <==> (s.contains(x) || x == k),
        sorted_insert(s, k).len() == s.len() + 1,
        sorted_insert(s, k).no_duplicates(),
{
    lemma_insert_position(s, k);
    let p = insert_position(s, k);
    let t = sorted_insert(s, k);
    assert forall|i: int, j: int| 0 <= i < j < t.len() implies key_lt(#[trigger] t[i], #[trigger] t[j]) by {
        if j < p {
            assert(t[i] == s[i] && t[j] == s[j]);
        } else if j == p {
            assert(t[i] == s[i] && t[j] == k);
        } else if i > p {
            assert(t[i] == s[i - 1] && t[j] == s[j - 1]);
        } else if i < p {
            assert(t[i] == s[i] && t[j] == s[j - 1]);
        } else {
            assert(t[i] == k && t[j] == s[j - 1]);
            assert(s[p] != k);
            lemma_key_lt_total(s[p], k);
            if j - 1 > p {
                lemma_key_lt_transitive(k, s[p], s[j - 1]);
            }
        }
    }
    assert forall|x: Pubkey| #[trigger] t.contains(x) <==> (s.contains(x) || x == k) by {
        if t.contains(x) {
            let i = choose|i: int| 0 <= i < t.len() && t[i] == x;
            if i < p {
                assert(s[i] == x);
            } else if i > p {
                assert(s[i - 1] == x);
            }
        }
        if s.contains(x) {
            let i = choose|i: int| 0 <= i < s.len() && s[i] == x;
            if i < p {
                assert(t[i] == x);
            } else {
                assert(t[i + 1] == x);
            }
        }
        if x == k {
            assert(t[p] == x);
        }
    }
    assert forall|i: int, j: int| 0 <= i < t.len() && 0 <= j < t.len() && i != j implies t[i] != t[j] by {
        lemma_key_lt_irreflexive(t[i]);
        if i < j {
            assert(key_lt(t[i], t[j]));
        } else {
            assert(key_lt(t[j], t[i]));
        }
    }
}

pub proof fn lemma_push(s: Seq<Pubkey>, e: Pubkey)
    ensures
        forall|x: Pubkey| #[trigger] s.push(e).contains(x) <==> (s.contains(x) || x == e),
        s.push(e).no_duplicates() <==> (s.no_duplicates() && !s.contains(e)),
{
    let t = s.push(e);
    assert forall|x: Pubkey| #[trigger] t.contains(x) <==> (s.contains(x) || x == e) by {
        if t.contains(x) {
            let i = choose|i: int| 0 <= i < t.len() && t[i] == x;
            if i < s.len() {
                assert(s[i] == x);
            }
        }
        if s.contains(x) {
            let i = choose|i: int| 0 <= i < s.len() && s[i] == x;
            assert(t[i] == x);
        }
        if x == e {
            assert(t[s.len() as int] == x);
        }
    }
    if t.no_duplicates() {
        assert forall|i: int, j: int|
            0 <= i < s.len() && 0 <= j < s.len() && i != j implies s[i] != s[j] by {
            assert(t[i] == s[i] && t[j] == s[j]);
        }
        if s.contains(e) {
            let i = choose|i: int| 0 <= i < s.len() && s[i] == e;
            assert(t[i] == t[s.len() as int]);
        }
    }
    if s.no_duplicates() && !s.contains(e) {
        assert forall|i: int, j: int|
            0 <= i < t.len() && 0 <= j < t.len() && i != j implies t[i] != t[j] by {
            if i < s.len() && j < s.len() {
                assert(t[i] == s[i] && t[j] == s[j]);
            } else if i < s.len() {
                assert(s.contains(s[i]));
            } else {
                assert(s.contains(s[j]));
            }
        }
    }
}

pub proof fn lemma_remove_key(s: Seq<Pubkey>, k: Pubkey)
    ensures
        forall|x: Pubkey| #[trigger] remove_key(s, k).contains(x) <==> (s.contains(x) && x != k),
        !s.contains(k) ==> remove_key(s, k) == s,
        s.no_duplicates() ==> remove_key(s, k).no_duplicates(),
        s.no_duplicates() && s.contains(k) ==> remove_key(s, k).len() == s.len() - 1,
        remove_key(s, k).len() <= s.len(),
    decreases s.len(),
{
    reveal(Seq::filter);
    if s.len() > 0 {
        let t = s.drop_last();
        let e = s.last();
        let rt = remove_key(t, k);
        lemma_remove_key(t, k);
        assert(s =~= t.push(e));
        t.lemma_filter_push(e, not_key(k));
        lemma_push(t, e);
        lemma_push(rt, e);
        assert forall|x: Pubkey| #[trigger] remove_key(s, k).contains(x) <==> (s.contains(x) && x != k) by {
            assert(rt.contains(x) <==> (t.contains(x) && x != k));
        }
    } else {
        assert(remove_key(s, k) == s);
    }
}

pub proof fn lemma_add_key(s: Seq<Pubkey>, k: Pubkey)
    ensures
        forall|x: Pubkey| #[trigger] add_key(s, k).contains(x) <==> (s.contains(x) || x == k),
        s.no_duplicates() ==> add_key(s, k).no_duplicates(),
        add_key(s, k).len() == if s.contains(k) { s.len() } else { s.len() + 1 },
{
    lemma_push(s, k);
}

/// Whether `v` holds `k`.
pub fn contains_key(v: &Vec<Pubkey>, k: &Pubkey) -> (r: bool)
    ensures
        r == v@.contains(*k),
{
    let mut i: usize = 0;
    while i < v.len()
        invariant
            i <= v.len(),
            forall|j: int| 0 <= j < i ==> v@[j] != *k,
        decreases v.len() - i,
    {
        if keys_equal(&v[i], k) {
            assert(v@[i as int] == *k);
            return true;
        }
        i = i + 1;
    }
    false
}

/// Whether some identity occurs twice in `v`.
pub fn has_duplicate_keys(v: &Vec<Pubkey>) -> (r: bool)
    ensures
        r == !v@.no_duplicates(),
{
    let mut i: usize = 0;
    while i < v.len()
        invariant
            i <= v.len(),
            forall|a: int, b: int| 0 <= a < i && 0 <= b < i && a != b ==> v@[a] != v@[b],
        decreases v.len() - i,
    {
        let mut j: usize = 0;
        while j < i
            invariant
                i < v.len(),
                j <= i,
                forall|b: int| 0 <= b < j ==> v@[b] != v@[i as int],
            decreases i - j,
        {
            if keys_equal(&v[j], &v[i]) {
                assert(v@[j as int] == v@[i as int]);
                return true;
            }
            j = j + 1;
        }
        i = i + 1;
    }
    false
}

/// Whether `v` is strictly ascending in the byte-wise order.
pub fn keys_are_ascending(v: &Vec<Pubkey>) -> (r: bool)
    ensures
        r == keys_ascending(v@),
{
    let mut j: usize = 0;
    while j < v.len()
        invariant
            j <= v.len(),
            forall|a: int, b: int| 0 <= a < b < j ==> key_lt(#[trigger] v@[a], #[trigger] v@[b]),
        decreases v.len() - j,
    {
        let mut i: usize = 0;
        while i < j
            invariant
                i <= j < v.len(),
                forall|a: int| 0 <= a < i ==> key_lt(#[trigger] v@[a], v@[j as int]),
            decreases j - i,
        {
            if !key_less(&v[i], &v[j]) {
                return false;
            }
            i = i + 1;
        }
        j = j + 1;
    }
    true
}

/// Inserts `k` into `v` at its place in the byte-wise order.
pub fn insert_sorted(v: &mut Vec<Pubkey>, k: Pubkey)
    ensures
        final(v)@ == sorted_insert(old(v)@, k),
{
    let mut i: usize = 0;
    proof {
        assert(v@.subrange(0, v@.len() as int) =~= v@);
    }
    while i < v.len() && key_less(&v[i], &k)
        invariant
            i <= v@.len(),
            insert_position(v@, k) == i + insert_position(v@.subrange(i as int, v@.len() as int), k),
        decreases v.len() - i,
    {
        proof {
            let rest = v@.subrange(i as int, v@.len() as int);
            assert(rest[0] == v@[i as int]);
            assert(rest.drop_first() =~= v@.subrange(i + 1, v@.len() as int));
        }
        i = i + 1;
    }
    proof {
        let rest = v@.subrange(i as int, v@.len() as int);
        if i < v@.len() {
            assert(rest[0] == v@[i as int]);
        }
    }
    v.insert(i, k);
}

/// A fresh vector with the same identities as `v`.
pub fn copy_keys(v: &Vec<Pubkey>) -> (r: Vec<Pubkey>)
    ensures
        r@ == v@,
{
    let mut r: Vec<Pubkey> = Vec::new();
    let mut i: usize = 0;
    while i < v.len()
        invariant
            i <= v.len(),
            r@ == v@.subrange(0, i as int),
        decreases v.len() - i,
    {
        r.push(v[i]);
        i = i + 1;
        assert(r@ =~= v@.subrange(0, i as int));
    }
    assert(v@.subrange(0, v.len() as int) =~= v@);
    r
}

/// `v` without `k`, order otherwise kept.
pub fn without_key(v: &Vec<Pubkey>, k: &Pubkey) -> (r: Vec<Pubkey>)
    ensures
        r@ == remove_key(v@, *k),
{
    let mut r: Vec<Pubkey> = Vec::new();
    let mut i: usize = 0;
    proof {
        reveal(Seq::filter);
        assert(v@.subrange(0, 0) =~= Seq::<Pubkey>::empty());
    }
    while i < v.len()
        invariant
            i <= v.len(),
            r@ == remove_key(v@.subrange(0, i as int), *k),
        decreases v.len() - i,
    {
        proof {
            assert(v@.subrange(0, i + 1) =~= v@.subrange(0, i as int).push(v@[i as int]));
            v@.subrange(0, i as int).lemma_filter_push(v@[i as int], not_key(*k));
        }
        if !keys_equal(&v[i], k) {
            r.push(v[i]);
        }
        i = i + 1;
    }
    assert(v@.subrange(0, v.len() as int) =~= v@);
    r
}

} // verus!
