//! Little-endian byte encodings inside byte buffers.

use vstd::prelude::*;

verus! {

/// The `n` least significant bytes of `v`, least significant first.
pub open spec fn le_bytes(v: nat, n: nat) -> Seq<u8>
    decreases n,
{
    if n == 0 {
        Seq::empty()
    } else {
        seq![(v % 256) as u8] + le_bytes(v / 256, (n - 1) as nat)
    }
}

/// `s` with the bytes from `off` on replaced by `b`.
pub open spec fn put(s: Seq<u8>, off: int, b: Seq<u8>) -> Seq<u8> {
    s.take(off) + b + s.skip(off + b.len())
}

pub proof fn lemma_le_bytes_len(v: nat, n: nat)
    ensures
        le_bytes(v, n).len() == n,
    decreases n,
{
    if n > 0 {
        lemma_le_bytes_len(v / 256, (n - 1) as nat);
    }
}

/// Writes the `n` low bytes of `v` into `buf` at `off`, little-endian.
pub fn put_le(buf: &mut Vec<u8>, off: usize, v: u64, n: usize)
    requires
        off + n <= old(buf).len(),
    ensures
        final(buf)@ == put(old(buf)@, off as int, le_bytes(v as nat, n as nat)),
        final(buf)@.len() == old(buf)@.len(),
{
    let ghost whole = le_bytes(v as nat, n as nat);
    proof {
        lemma_le_bytes_len(v as nat, n as nat);
        assert(whole.skip(0) =~= whole);
        assert(buf@ =~= put(old(buf)@, off as int, whole.take(0)));
    }
    let mut x: u64 = v;
    let mut k: usize = 0;
    while k < n
        invariant
            0 <= k <= n,
            off + n <= buf.len(),
            buf@.len() == old(buf)@.len(),
            whole.len() == n,
            whole == le_bytes(v as nat, n as nat),
            buf@ == put(old(buf)@, off as int, whole.take(k as int)),
            whole.skip(k as int) == le_bytes(x as nat, (n - k) as nat),
        decreases n - k,
    {
        let ghost prev = buf@;
        let b: u8 = (x % 256) as u8;
        proof {
            let rest = le_bytes(x as nat, (n - k) as nat);
            assert(rest == seq![(x as nat % 256) as u8] + le_bytes(x as nat / 256, (n - k - 1) as nat));
            assert(whole[k as int] == whole.skip(k as int)[0]);
            assert(whole[k as int] == b);
            assert(whole.skip(k + 1) =~= whole.skip(k as int).skip(1));
            assert(rest.skip(1) =~= le_bytes(x as nat / 256, (n - k - 1) as nat));
        }
        buf.set(off + k, b);
        x = x / 256;
        k = k + 1;
        proof {
            assert(buf@ =~= put(old(buf)@, off as int, whole.take(k as int)));
        }
    }
    proof {
        assert(whole.take(n as int) =~= whole);
    }
}

/// Appends the `n` low bytes of `v` to `buf`, little-endian.
pub fn append_le(buf: &mut Vec<u8>, v: u64, n: usize)
    ensures
        final(buf)@ == old(buf)@ + le_bytes(v as nat, n as nat),
{
    let ghost whole = le_bytes(v as nat, n as nat);
    proof {
        lemma_le_bytes_len(v as nat, n as nat);
        assert(whole.skip(0) =~= whole);
        assert(buf@ =~= old(buf)@ + whole.take(0));
    }
    let mut x: u64 = v;
    let mut k: usize = 0;
    while k < n
        invariant
            0 <= k <= n,
            whole.len() == n,
            whole == le_bytes(v as nat, n as nat),
            buf@ == old(buf)@ + whole.take(k as int),
            whole.skip(k as int) == le_bytes(x as nat, (n - k) as nat),
        decreases n - k,
    {
        let b: u8 = (x % 256) as u8;
        proof {
            let rest = le_bytes(x as nat, (n - k) as nat);
            assert(rest == seq![(x as nat % 256) as u8] + le_bytes(x as nat / 256, (n - k - 1) as nat));
            assert(whole[k as int] == whole.skip(k as int)[0]);
            assert(whole.skip(k + 1) =~= whole.skip(k as int).skip(1));
            assert(rest.skip(1) =~= le_bytes(x as nat / 256, (n - k - 1) as nat));
        }
        buf.push(b);
        x = x / 256;
        k = k + 1;
        proof {
            assert(buf@ =~= old(buf)@ + whole.take(k as int));
        }
    }
    proof {
        assert(whole.take(n as int) =~= whole);
    }
}

} // verus!
