use vstd::prelude::*;

verus! {

/// A 32-byte account identity. The library only ever compares identities
/// for equality; it never interprets their bytes.
#[derive(Clone, Copy, Debug, Eq, Hash)]
pub struct Pubkey {
    pub bytes: [u8; 32],
}

impl Pubkey {
    /// Whether every byte is zero (the default identity).
    pub open spec fn is_zero(&self) -> bool {
        forall|i: int| 0 <= i < 32 ==> #[trigger] self.bytes@[i] == 0u8
    }

    pub fn new_from_array(bytes: [u8; 32]) -> (r: Pubkey)
        ensures
            r.bytes == bytes,
    {
        Pubkey { bytes }
    }

    pub fn to_bytes(&self) -> (r: [u8; 32])
        ensures
            r == self.bytes,
    {
        self.bytes
    }

    /// Whether this is the default (all-zero) identity.
    pub fn is_default(&self) -> (r: bool)
        ensures
            r == self.is_zero(),
    {
        let mut i: usize = 0;
        while i < 32
            invariant
                i <= 32,
                forall|j: int| 0 <= j < i ==> #[trigger] self.bytes@[j] == 0u8,
            decreases 32 - i,
        {
            if self.bytes[i] != 0 {
                return false;
            }
            i = i + 1;
        }
        true
    }
}

/// `a` and `b` agree before byte `k` and `a` is smaller at byte `k`.
pub open spec fn key_lt_at(a: Pubkey, b: Pubkey, k: int) -> bool {
    &&& 0 <= k < 32
    &&& forall|j: int| 0 <= j < k ==> #[trigger] a.bytes@[j] == b.bytes@[j]
    &&& a.bytes@[k] < b.bytes@[k]
}

/// The lexicographic order of identities by their bytes.
pub open spec fn key_lt(a: Pubkey, b: Pubkey) -> bool {
    exists|k: int| #[trigger] key_lt_at(a, b, k)
}

pub proof fn lemma_key_lt_irreflexive(a: Pubkey)
    ensures
        !key_lt(a, a),
{
}

pub proof fn lemma_key_lt_transitive(a: Pubkey, b: Pubkey, c: Pubkey)
    requires
        key_lt(a, b),
        key_lt(b, c),
    ensures
        key_lt(a, c),
{
    let k1 = choose|k: int| key_lt_at(a, b, k);
    let k2 = choose|k: int| key_lt_at(b, c, k);
    if k1 <= k2 {
        assert(key_lt_at(a, c, k1));
    } else {
        assert(key_lt_at(a, c, k2));
    }
}

proof fn lemma_key_total_from(a: Pubkey, b: Pubkey, i: int)
    requires
        0 <= i <= 32,
        forall|j: int| 0 <= j < i ==> #[trigger] a.bytes@[j] == b.bytes@[j],
        exists|k: int| i <= k < 32 && #[trigger] a.bytes@[k] != b.bytes@[k],
    ensures
        key_lt(a, b) || key_lt(b, a),
    decreases 32 - i,
{
    if a.bytes@[i] != b.bytes@[i] {
        if a.bytes@[i] < b.bytes@[i] {
            assert(key_lt_at(a, b, i));
        } else {
            assert(key_lt_at(b, a, i));
        }
    } else {
        let k = choose|k: int| i <= k < 32 && #[trigger] a.bytes@[k] != b.bytes@[k];
        assert(i + 1 <= k);
        lemma_key_total_from(a, b, i + 1);
    }
}

pub proof fn lemma_key_lt_total(a: Pubkey, b: Pubkey)
    requires
        a != b,
    ensures
        key_lt(a, b) || key_lt(b, a),
{
    if forall|k: int| 0 <= k < 32 ==> #[trigger] a.bytes@[k] == b.bytes@[k] {
        assert(a.bytes =~= b.bytes);
    }
    lemma_key_total_from(a, b, 0);
}

/// Whether `a` comes before `b` in the byte-wise order.
pub fn key_less(a: &Pubkey, b: &Pubkey) -> (r: bool)
    ensures
        r == key_lt(*a, *b),
{
    let mut i: usize = 0;
    while i < 32
        invariant
            i <= 32,
            forall|j: int| 0 <= j < i ==> #[trigger] a.bytes@[j] == b.bytes@[j],
        decreases 32 - i,
    {
        if a.bytes[i] != b.bytes[i] {
            if a.bytes[i] < b.bytes[i] {
                assert(key_lt_at(*a, *b, i as int));
                return true;
            } else {
                assert forall|k: int| !key_lt_at(*a, *b, k) by {
                    if key_lt_at(*a, *b, k) {
                        if k > i {
                            assert(a.bytes@[i as int] == b.bytes@[i as int]);
                        }
                    }
                }
                return false;
            }
        }
        i = i + 1;
    }
    assert forall|k: int| !key_lt_at(*a, *b, k) by {
        if 0 <= k < 32 {
            assert(a.bytes@[k] == b.bytes@[k]);
        }
    }
    false
}

/// Byte-wise comparison of two identities.
pub fn keys_equal(a: &Pubkey, b: &Pubkey) -> (r: bool)
    ensures
        r == (*a == *b),
{
    let mut i: usize = 0;
    while i < 32
        invariant
            i <= 32,
            forall|j: int| 0 <= j < i ==> #[trigger] a.bytes@[j] == b.bytes@[j],
        decreases 32 - i,
    {
        if a.bytes[i] != b.bytes[i] {
            assert(a.bytes@[i as int] != b.bytes@[i as int]);
            return false;
        }
        i = i + 1;
    }
    assert(a.bytes =~= b.bytes);
    true
}

impl Default for Pubkey {
    fn default() -> (r: Pubkey)
        ensures
            r.is_zero(),
    {
        Pubkey { bytes: [0u8; 32] }
    }
}

impl PartialEq for Pubkey {
    fn eq(&self, other: &Pubkey) -> (r: bool) {
        keys_equal(self, other)
    }
}

impl vstd::std_specs::cmp::PartialEqSpecImpl for Pubkey {
    open spec fn obeys_eq_spec() -> bool {
        true
    }

    open spec fn eq_spec(&self, other: &Pubkey) -> bool {
        *self == *other
    }
}

} // verus!
