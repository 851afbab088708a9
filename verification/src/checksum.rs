use vstd::prelude::*;
use vstd::arithmetic::div_mod::{
    lemma_add_mod_noop, lemma_fundamental_div_mod, lemma_small_mod,
};

verus! {

/// Mathematical sum of the bytes of a payload.
pub open spec fn byte_sum(s: Seq<u8>) -> int
    decreases s.len(),
{
    if s.len() == 0 {
        0
    } else {
        byte_sum(s.drop_last()) + s.last()
    }
}

/// The integrity value carried by every packet: the sum of the payload's
/// bytes reduced modulo 2^32.  It is a pure function of the payload, so
/// sender and receiver compute it identically; it detects any corruption
/// confined to one byte (hence any single flipped bit).  There is no
/// cryptographic intent.
pub open spec fn checksum_spec(s: Seq<u8>) -> u32 {
    (byte_sum(s) % 0x1_0000_0000) as u32
}

/// Computes and checks packet checksums.
pub struct Checksum {}

impl Checksum {
    /// The checksum of `payload`, as the sender stores it in the header.
    pub fn compute(payload: &[u8]) -> (r: u32)
        ensures
            r == checksum_spec(payload@),
    {
        let n: usize = payload.len();
        let mut sum: u32 = 0;
        for i in 0..n
            invariant
                n == payload@.len(),
                sum == byte_sum(payload@.take(i as int)) % 0x1_0000_0000,
        {
            let b: u8 = payload[i];
            proof {
                assert(payload@.take(i + 1).drop_last() =~= payload@.take(i as int));
                assert(payload@.take(i + 1).last() == payload@[i as int]);
                lemma_small_mod(b as nat, 0x1_0000_0000);
                lemma_add_mod_noop(byte_sum(payload@.take(i as int)), b as int, 0x1_0000_0000);
                if sum + b <= u32::MAX {
                    lemma_small_mod((sum + b) as nat, 0x1_0000_0000);
                } else {
                    lemma_fundamental_div_mod(sum + b, 0x1_0000_0000);
                    lemma_small_mod((sum + b - 0x1_0000_0000) as nat, 0x1_0000_0000);
                }
            }
            sum = sum.wrapping_add(b as u32);
        }
        proof {
            assert(payload@.take(n as int) =~= payload@);
        }
        sum
    }

    /// Whether the checksum claimed by a packet header matches the payload.
    /// Framing validity and checksum validity stay separate failure kinds,
    /// so this is an explicit step and no part of packet decoding.
    pub fn check(claimed: u32, payload: &[u8]) -> (r: bool)
        ensures
            r == (claimed == checksum_spec(payload@)),
    {
        claimed == Checksum::compute(payload)
    }
}

/// Changing exactly one byte shifts the byte sum by exactly the difference
/// of that byte.
proof fn lemma_byte_sum_single_change(p1: Seq<u8>, p2: Seq<u8>, i: int)
    requires
        p1.len() == p2.len(),
        0 <= i < p1.len(),
        forall|j: int| 0 <= j < p1.len() && j != i ==> p1[j] == p2[j],
    ensures
        byte_sum(p2) == byte_sum(p1) + p2[i] - p1[i],
    decreases p1.len(),
{
    if i == p1.len() - 1 {
        assert(p1.drop_last() =~= p2.drop_last());
    } else {
        lemma_byte_sum_single_change(p1.drop_last(), p2.drop_last(), i);
        assert(p1.last() == p1[p1.len() - 1]);
        assert(p2.last() == p2[p2.len() - 1]);
    }
}

/// A payload corrupted in exactly one byte never passes the check against
/// the original checksum; in particular any single flipped bit is caught.
pub proof fn lemma_checksum_detects_single_byte_corruption(p1: Seq<u8>, p2: Seq<u8>, i: int)
    requires
        p1.len() == p2.len(),
        0 <= i < p1.len(),
        p1[i] != p2[i],
        forall|j: int| 0 <= j < p1.len() && j != i ==> p1[j] == p2[j],
    ensures
        checksum_spec(p1) != checksum_spec(p2),
{
    lemma_byte_sum_single_change(p1, p2, i);
    let m: int = 0x1_0000_0000;
    let a: int = byte_sum(p1);
    let d: int = p2[i] - p1[i];
    if checksum_spec(p1) == checksum_spec(p2) {
        lemma_fundamental_div_mod(a, m);
        lemma_fundamental_div_mod(a + d, m);
        let q1: int = a / m;
        let q2: int = (a + d) / m;
        assert(a % m == (a + d) % m);
        assert(d == m * q2 - m * q1);
        assert(m * q2 - m * q1 == m * (q2 - q1)) by (nonlinear_arith);
        assert(q2 - q1 != 0);
        assert(m * (q2 - q1) >= m || m * (q2 - q1) <= -m) by (nonlinear_arith)
            requires
                q2 - q1 != 0,
                m == 0x1_0000_0000,
        ;
        assert(-255 <= d <= 255);
        assert(false);
    }
}

} // verus!
