//! Integers as bytes.

use vstd::prelude::*;

use crate::primitives::lex::{lex_lt, lex_lt_at};

verus! {

/// The `k` lowest bytes of `n`, the highest of them first.
pub open spec fn be_bytes(n: nat, k: nat) -> Seq<u8>
    decreases k,
{
    if k == 0 {
        Seq::empty()
    } else {
        be_bytes(n / 256, (k - 1) as nat).push((n % 256) as u8)
    }
}

/// The `k` lowest bytes of `n`, the lowest of them first.
pub open spec fn le_bytes(n: nat, k: nat) -> Seq<u8>
    decreases k,
{
    if k == 0 {
        Seq::empty()
    } else {
        seq![(n % 256) as u8] + le_bytes(n / 256, (k - 1) as nat)
    }
}

/// The number whose bytes are `s`, the lowest first.
pub open spec fn le_value(s: Seq<u8>) -> nat
    decreases s.len(),
{
    if s.len() == 0 {
        0
    } else {
        s[0] as nat + 256 * le_value(s.drop_first())
    }
}

/// Two hundred and fifty-six to the power of `k`.
pub open spec fn pow256(k: nat) -> nat
    decreases k,
{
    if k == 0 {
        1
    } else {
        256 * pow256((k - 1) as nat)
    }
}

/// Writes the `k` lowest bytes of `n`, the highest first.
pub fn to_be_bytes(n: u64, k: u8) -> (r: Vec<u8>)
    ensures
        r@ == be_bytes(n as nat, k as nat),
    decreases k,
{
    if k == 0 {
        Vec::new()
    } else {
        let mut out = to_be_bytes(n / 256, k - 1);
        out.push((n % 256) as u8);
        out
    }
}

/// Writes the `k` lowest bytes of `n`, the lowest first.
pub fn to_le_bytes(n: u128, k: u8) -> (r: Vec<u8>)
    ensures
        r@ == le_bytes(n as nat, k as nat),
    decreases k,
{
    let mut out: Vec<u8> = Vec::new();
    if k > 0 {
        out.push((n % 256) as u8);
        let rest = to_le_bytes(n / 256, k - 1);
        out.extend_from_slice(rest.as_slice());
        assert(out@ =~= seq![(n % 256) as u8] + rest@);
    }
    out
}

/// Reads eight bytes from position `at`, the lowest first.
pub fn le_u64_at(data: &[u8], at: usize) -> (r: u64)
    requires
        at + 8 <= data@.len(),
    ensures
        r == le_value(data@.subrange(at as int, at + 8)),
{
    let r: u64 = data[at] as u64 + 0x100 * (data[at + 1] as u64) + 0x1_0000 * (data[at + 2] as u64)
        + 0x100_0000 * (data[at + 3] as u64) + 0x1_0000_0000 * (data[at + 4] as u64)
        + 0x100_0000_0000 * (data[at + 5] as u64) + 0x1_0000_0000_0000 * (data[at + 6] as u64)
        + 0x100_0000_0000_0000 * (data[at + 7] as u64);
    proof {
        let s = data@.subrange(at as int, at + 8);
        reveal_with_fuel(le_value, 9);
        assert(s.drop_first()[0] == s[1]);
        assert(s.drop_first().drop_first()[0] == s[2]);
        assert(s.drop_first().drop_first().drop_first()[0] == s[3]);
        let t = s.drop_first().drop_first().drop_first().drop_first();
        assert(t[0] == s[4]);
        assert(t.drop_first()[0] == s[5]);
        assert(t.drop_first().drop_first()[0] == s[6]);
        assert(t.drop_first().drop_first().drop_first()[0] == s[7]);
        assert(t.drop_first().drop_first().drop_first().drop_first().len() == 0);
    }
    r
}

/// Big-endian and little-endian bytes have the length that was asked for.
pub proof fn lemma_bytes_len(n: nat, k: nat)
    ensures
        be_bytes(n, k).len() == k,
        le_bytes(n, k).len() == k,
    decreases k,
{
    if k > 0 {
        lemma_bytes_len(n / 256, (k - 1) as nat);
    }
}

/// Reading little-endian bytes gives the number back, if they can hold it.
pub proof fn lemma_le_roundtrip(n: nat, k: nat)
    requires
        n < pow256(k),
    ensures
        le_value(le_bytes(n, k)) == n,
    decreases k,
{
    if k > 0 {
        lemma_le_roundtrip(n / 256, (k - 1) as nat);
        let s = le_bytes(n, k);
        assert(s.drop_first() =~= le_bytes(n / 256, (k - 1) as nat));
    }
}

/// Every 64-bit number fits eight bytes, and every 32-bit number four.
pub proof fn lemma_pow256_values()
    ensures
        pow256(8) == 0x1_0000_0000_0000_0000,
        pow256(4) == 0x1_0000_0000,
{
    reveal_with_fuel(pow256, 9);
}

/// Big-endian bytes are in lexicographic order exactly when the numbers are in
/// numeric order.
pub proof fn law_big_endian_keeps_order(a: nat, b: nat, k: nat)
    requires
        a < pow256(k),
        b < pow256(k),
    ensures
        lex_lt(be_bytes(a, k), be_bytes(b, k)) <==> a < b,
        be_bytes(a, k) == be_bytes(b, k) <==> a == b,
    decreases k,
{
    if k > 0 {
        let j = (k - 1) as nat;
        law_big_endian_keeps_order(a / 256, b / 256, j);
        lemma_bytes_len(a / 256, j);
        lemma_bytes_len(b / 256, j);
        let x = be_bytes(a, k);
        let y = be_bytes(b, k);
        let x0 = be_bytes(a / 256, j);
        let y0 = be_bytes(b / 256, j);
        assert(x.drop_last() =~= x0);
        assert(y.drop_last() =~= y0);
        if a < b {
            if a / 256 < b / 256 {
                let m = choose|m: int| lex_lt_at(x0, y0, m);
                assert(lex_lt_at(x, y, m)) by {
                    assert forall|i: int| 0 <= i < m implies x[i] == y[i] by {
                        assert(x0[i] == y0[i]);
                    }
                    assert(x[m] == x0[m] && y[m] == y0[m]);
                }
            } else {
                assert(x0 == y0);
                assert(lex_lt_at(x, y, j as int)) by {
                    assert forall|i: int| 0 <= i < j implies x[i] == y[i] by {
                        assert(x[i] == x0[i] && y[i] == y0[i]);
                    }
                }
            }
        }
        if lex_lt(x, y) {
            let m = choose|m: int| lex_lt_at(x, y, m);
            if m < j {
                assert(lex_lt_at(x0, y0, m)) by {
                    assert forall|i: int| 0 <= i < m implies x0[i] == y0[i] by {
                        assert(x[i] == x0[i] && y[i] == y0[i]);
                    }
                    assert(x[m] == x0[m] && y[m] == y0[m]);
                }
            } else {
                assert(x0 =~= y0) by {
                    assert forall|i: int| 0 <= i < j implies x0[i] == y0[i] by {
                        assert(x[i] == x0[i] && y[i] == y0[i]);
                    }
                }
            }
        }
        if x == y {
            assert(x.last() == y.last());
        }
    }
}

} // verus!
