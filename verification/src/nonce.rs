use vstd::prelude::*;
use crate::params::NONCE_LEN;
use vstd::arithmetic::div_mod::lemma_small_mod;

verus! {

broadcast use vstd::array::group_array_axioms;

/// Cryptographic nonce: `NONCE_LEN` bytes, not secret, safe to transmit
/// alongside the ciphertext.
///
/// For a given key, no two encryption operations may ever use the same
/// nonce value; this uniqueness is a caller obligation that the type
/// cannot enforce.
#[derive(Clone, Debug)]
pub struct Nonce(pub [u8; NONCE_LEN]);

impl View for Nonce {
    type V = Seq<u8>;

    open spec fn view(&self) -> Seq<u8> {
        self.0@
    }
}

/// The value of a byte string read as an unsigned little-endian integer.
pub open spec fn le_val(s: Seq<u8>) -> nat
    decreases s.len(),
{
    if s.len() == 0 {
        0
    } else {
        s[0] as nat + 256 * le_val(s.skip(1))
    }
}

/// 256 raised to the power `k`: the number of values `k` bytes can hold.
pub open spec fn pow256(k: nat) -> nat
    decreases k,
{
    if k == 0 {
        1
    } else {
        256 * pow256((k - 1) as nat)
    }
}

/// One more than the largest value a counter state can hold.
pub open spec fn counter_mod() -> nat {
    pow256(NONCE_LEN as nat)
}

/// A byte string's little-endian value is below 256^length.
proof fn lemma_le_val_bound(s: Seq<u8>)
    ensures
        le_val(s) < pow256(s.len()),
    decreases s.len(),
{
    if s.len() > 0 {
        lemma_le_val_bound(s.skip(1));
    }
}

/// Incrementing at the first byte that does not carry: if the first `i`
/// bytes roll over from 255 to 0 and byte `i` itself goes up by one, the
/// little-endian value goes up by one, without reaching 256^length.
proof fn lemma_carry_step(s1: Seq<u8>, s2: Seq<u8>, i: int)
    requires
        s1.len() == s2.len(),
        0 <= i < s1.len(),
        forall|j: int| 0 <= j < i ==> s1[j] == 255,
        forall|j: int| 0 <= j < i ==> s2[j] == 0,
        s1[i] < 255,
        s2[i] == s1[i] + 1,
        forall|j: int| i < j < s1.len() ==> s2[j] == s1[j],
    ensures
        le_val(s2) == le_val(s1) + 1,
        le_val(s1) + 1 < pow256(s1.len()),
    decreases i,
{
    if i == 0 {
        assert(s2.skip(1) =~= s1.skip(1));
        lemma_le_val_bound(s1.skip(1));
    } else {
        assert forall|j: int| 0 <= j < i - 1 implies s1.skip(1)[j] == 255 && s2.skip(1)[j]
            == 0 by {
            assert(s1.skip(1)[j] == s1[j + 1]);
            assert(s2.skip(1)[j] == s2[j + 1]);
        }
        assert forall|j: int| i - 1 < j < s1.skip(1).len() implies s2.skip(1)[j] == s1.skip(
            1,
        )[j] by {
            assert(s1.skip(1)[j] == s1[j + 1]);
            assert(s2.skip(1)[j] == s2[j + 1]);
        }
        assert(s1.skip(1)[i - 1] == s1[i]);
        assert(s2.skip(1)[i - 1] == s2[i]);
        lemma_carry_step(s1.skip(1), s2.skip(1), i - 1);
    }
}

/// The all-255 state holds the largest value; the all-zero state holds zero.
proof fn lemma_wrap_around(s1: Seq<u8>, s2: Seq<u8>)
    requires
        s1.len() == s2.len(),
        forall|j: int| 0 <= j < s1.len() ==> s1[j] == 255,
        forall|j: int| 0 <= j < s2.len() ==> s2[j] == 0,
    ensures
        le_val(s1) == pow256(s1.len()) - 1,
        le_val(s2) == 0,
    decreases s1.len(),
{
    if s1.len() > 0 {
        assert forall|j: int| 0 <= j < s1.skip(1).len() implies s1.skip(1)[j] == 255 && s2.skip(
            1,
        )[j] == 0 by {
            assert(s1.skip(1)[j] == s1[j + 1]);
            assert(s2.skip(1)[j] == s2[j + 1]);
        }
        lemma_wrap_around(s1.skip(1), s2.skip(1));
    }
}

/// Two byte strings of the same length with the same little-endian value
/// are the same string: the numeric model loses nothing.
pub proof fn lemma_le_val_injective(s1: Seq<u8>, s2: Seq<u8>)
    requires
        s1.len() == s2.len(),
        le_val(s1) == le_val(s2),
    ensures
        s1 == s2,
    decreases s1.len(),
{
    if s1.len() == 0 {
        assert(s1 =~= s2);
    } else {
        assert(s1[0] as nat + 256 * le_val(s1.skip(1)) == s2[0] as nat + 256 * le_val(
            s2.skip(1),
        ));
        assert(s1[0] == s2[0] && le_val(s1.skip(1)) == le_val(s2.skip(1))) by {
            lemma_le_val_bound(s1.skip(1));
            lemma_le_val_bound(s2.skip(1));
        }
        lemma_le_val_injective(s1.skip(1), s2.skip(1));
        assert forall|j: int| 0 <= j < s1.len() implies s1[j] == s2[j] by {
            if j > 0 {
                assert(s1.skip(1)[j - 1] == s1[j]);
                assert(s2.skip(1)[j - 1] == s2[j]);
            }
        }
        assert(s1 =~= s2);
    }
}

/// A source of unique nonces, counting sequentially as a little-endian
/// integer with full wraparound.
///
/// Reset it only when the associated key changes; restarting a counter
/// under the same key breaks the nonce-uniqueness obligation.
pub struct Counter(pub [u8; NONCE_LEN]);

impl View for Counter {
    type V = Seq<u8>;

    open spec fn view(&self) -> Seq<u8> {
        self.0@
    }
}

impl Counter {
    /// Create a counter with a specified first output.
    pub fn new(n: Nonce) -> (c: Counter)
        ensures
            c.0 == n.0,
            c@ == n@,
    {
        Counter(n.0)
    }

    /// Draw a nonce: emit the current value, then increment the state as
    /// an unsigned little-endian integer, wrapping silently past the
    /// largest value. The source is never exhausted.
    pub fn next(&mut self) -> (r: Option<Nonce>)
        ensures
            r == Some(Nonce(old(self).0)),
            le_val(final(self)@) == (le_val(old(self)@) + 1) % counter_mod(),
    {
        let v = Nonce(self.0);
        let ghost s0 = self.0@;
        let mut i: usize = 0;
        while i < NONCE_LEN
            invariant_except_break
                i <= NONCE_LEN,
                s0.len() == NONCE_LEN,
                self.0@.len() == NONCE_LEN,
                forall|j: int| 0 <= j < i ==> s0[j] == 255,
                forall|j: int| 0 <= j < i ==> self.0@[j] == 0,
                forall|j: int| i <= j < NONCE_LEN ==> self.0@[j] == s0[j],
            ensures
                i <= NONCE_LEN,
                s0.len() == NONCE_LEN,
                self.0@.len() == NONCE_LEN,
                forall|j: int| 0 <= j < i ==> s0[j] == 255,
                forall|j: int| 0 <= j < i ==> self.0@[j] == 0,
                i < NONCE_LEN ==> s0[i as int] < 255 && self.0@[i as int] == s0[i as int] + 1
                    && (forall|j: int| i < j < NONCE_LEN ==> self.0@[j] == s0[j]),
            decreases NONCE_LEN - i,
        {
            let b = self.0[i].wrapping_add(1);
            self.0[i] = b;
            if b != 0 {
                break;
            }
            i = i + 1;
        }
        proof {
            if i < NONCE_LEN {
                lemma_carry_step(s0, self.0@, i as int);
                lemma_small_mod(le_val(s0) + 1, counter_mod());
            } else {
                lemma_wrap_around(s0, self.0@);
                vstd::arithmetic::div_mod::lemma_mod_self_0(counter_mod() as int);
            }
        }
        Some(v)
    }
}

} // verus!
