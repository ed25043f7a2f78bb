use vstd::prelude::*;

verus! {

/// `256^n`.
pub open spec fn pow256(n: nat) -> nat
    decreases n,
{
    if n == 0 {
        1
    } else {
        256 * pow256((n - 1) as nat)
    }
}

/// The bytes read as a big-endian number.
pub open spec fn be_value(b: Seq<u8>) -> nat
    decreases b.len(),
{
    if b.len() == 0 {
        0
    } else {
        be_value(b.drop_last()) * 256 + b.last() as nat
    }
}

proof fn lemma_pow256_step(n: nat)
    ensures
        pow256(n + 1) == 256 * pow256(n),
{
}

proof fn lemma_pow256_15()
    ensures
        pow256(15) * 256 == 0x1_0000_0000_0000_0000_0000_0000_0000_0000,
{
    reveal_with_fuel(pow256, 16);
}

/// Reads sixteen bytes as a big-endian `u128`.
fn read_be_u128(key: &[u8; 32], start: usize) -> (r: u128)
    requires
        start == 0 || start == 16,
    ensures
        r as nat == be_value(key@.subrange(start as int, start + 16)),
{
    let mut acc: u128 = 0;
    let mut i: usize = 0;
    proof {
        assert(key@.subrange(start as int, start as int) =~= Seq::<u8>::empty());
    }
    while i < 16
        invariant
            start == 0 || start == 16,
            i <= 16,
            acc as nat == be_value(key@.subrange(start as int, start + i)),
            (acc as nat) < pow256(i as nat),
        decreases 16 - i,
    {
        let byte = key[start + i];
        proof {
            lemma_pow256_step(i as nat);
            let p = pow256(i as nat);
            if i < 15 {
                assert(pow256(i as nat) <= pow256(15)) by {
                    lemma_pow256_monotone(i as nat, 15);
                }
            }
            lemma_pow256_15();
            assert((acc as nat) * 256 + (byte as nat) < p * 256) by (nonlinear_arith)
                requires
                    (acc as nat) < p,
                    byte < 256,
            ;
            assert(p * 256 <= pow256(15) * 256) by (nonlinear_arith)
                requires
                    p <= pow256(15),
            ;
            let next = key@.subrange(start as int, start + i + 1);
            assert(next.drop_last() =~= key@.subrange(start as int, start + i));
        }
        acc = acc * 256 + byte as u128;
        i = i + 1;
    }
    acc
}

proof fn lemma_pow256_monotone(a: nat, b: nat)
    requires
        a <= b,
    ensures
        pow256(a) <= pow256(b),
    decreases b - a,
{
    if a < b {
        lemma_pow256_monotone(a, (b - 1) as nat);
        lemma_pow256_step((b - 1) as nat);
    }
}

/// An authenticated caller identity: a 256-bit public key held as two
/// 128-bit words (`hi` holds the first sixteen bytes, big-endian).
#[derive(Clone, Copy, Debug, PartialEq, Eq, Structural)]
pub struct Principal {
    pub hi: u128,
    pub lo: u128,
}

impl Principal {
    pub open spec fn zero_spec() -> Principal {
        Principal { hi: 0, lo: 0 }
    }

    /// The all-zero key, used where no principal has been set yet.
    pub fn zero() -> (r: Principal)
        ensures
            r == Principal::zero_spec(),
    {
        Principal { hi: 0, lo: 0 }
    }

    /// The principal of a 32-byte public key: the first sixteen bytes,
    /// big-endian, make `hi`, the last sixteen `lo`.
    pub fn from_bytes(key: [u8; 32]) -> (r: Principal)
        ensures
            r.hi as nat == be_value(key@.subrange(0, 16)),
            r.lo as nat == be_value(key@.subrange(16, 32)),
    {
        let hi = read_be_u128(&key, 0);
        let lo = read_be_u128(&key, 16);
        Principal { hi, lo }
    }

    /// Whether two keys are the same principal.
    pub fn same(&self, other: &Principal) -> (r: bool)
        ensures
            r == (*self == *other),
    {
        self.hi == other.hi && self.lo == other.lo
    }
}

} // verus!
