use vstd::prelude::*;

verus! {

/// `256` raised to `n`: the number of values that `n` bytes can hold.
pub open spec fn pow256(n: nat) -> nat
    decreases n,
{
    if n == 0 {
        1
    } else {
        256 * pow256((n - 1) as nat)
    }
}

/// The unsigned big-endian value of a byte sequence.
pub open spec fn be_value(s: Seq<u8>) -> nat
    decreases s.len(),
{
    if s.len() == 0 {
        0
    } else {
        be_value(s.drop_last()) * 256 + s.last() as nat
    }
}

/// The `n` low-order bytes of `x`, most significant first.
pub open spec fn be_bytes(x: nat, n: nat) -> Seq<u8>
    decreases n,
{
    if n == 0 {
        Seq::empty()
    } else {
        be_bytes(x / 256, (n - 1) as nat).push((x % 256) as u8)
    }
}

pub proof fn lemma_pow256_positive(n: nat)
    ensures
        pow256(n) >= 1,
    decreases n,
{
    if n > 0 {
        lemma_pow256_positive((n - 1) as nat);
    }
}

pub proof fn lemma_pow256_values()
    ensures
        pow256(1) == 0x100,
        pow256(2) == 0x1_0000,
        pow256(4) == 0x1_0000_0000,
        pow256(8) == 0x1_0000_0000_0000_0000,
{
    reveal_with_fuel(pow256, 9);
}

pub proof fn lemma_be_bytes_len(x: nat, n: nat)
    ensures
        be_bytes(x, n).len() == n,
    decreases n,
{
    if n > 0 {
        lemma_be_bytes_len(x / 256, (n - 1) as nat);
    }
}

/// A big-endian value fits in as many bytes as it was read from.
pub proof fn lemma_be_value_bound(s: Seq<u8>)
    ensures
        be_value(s) < pow256(s.len()),
    decreases s.len(),
{
    if s.len() > 0 {
        lemma_be_value_bound(s.drop_last());
        let p = pow256((s.len() - 1) as nat);
        let v = be_value(s.drop_last());
        assert(v * 256 + s.last() < 256 * p) by (nonlinear_arith)
            requires
                v < p,
                s.last() < 256,
        ;
    }
}

/// Reading back the bytes of a value that fits gives the value.
pub proof fn lemma_be_roundtrip(x: nat, n: nat)
    requires
        x < pow256(n),
    ensures
        be_value(be_bytes(x, n)) == x,
        be_bytes(x, n).len() == n,
    decreases n,
{
    lemma_be_bytes_len(x, n);
    if n > 0 {
        let p = pow256((n - 1) as nat);
        assert(x / 256 < p) by (nonlinear_arith)
            requires
                x < 256 * p,
        ;
        lemma_be_roundtrip(x / 256, (n - 1) as nat);
        let s = be_bytes(x, n);
        assert(s.drop_last() == be_bytes(x / 256, (n - 1) as nat));
        assert((x / 256) * 256 + x % 256 == x) by (nonlinear_arith);
    } else {
        assert(x == 0);
    }
}

/// Concatenation splits a big-endian value: the prefix is the high part.
pub proof fn lemma_be_value_take(s: Seq<u8>, k: int)
    requires
        0 <= k < s.len(),
    ensures
        be_value(s.take(k + 1)) == be_value(s.take(k)) * 256 + s[k] as nat,
{
    assert(s.take(k + 1).drop_last() == s.take(k));
}

/// Writes `x` as `n` big-endian bytes at the end of `out`.
pub fn push_be(out: &mut Vec<u8>, x: u64, n: usize)
    requires
        n <= 8,
    ensures
        final(out)@ == old(out)@ + be_bytes(x as nat, n as nat),
    decreases n,
{
    if n > 0 {
        push_be(out, x / 256, n - 1);
        out.push((x % 256) as u8);
        assert(be_bytes(x as nat, n as nat) == be_bytes((x / 256) as nat, (n - 1) as nat).push(
            (x % 256) as u8,
        ));
    } else {
        assert(be_bytes(x as nat, 0) =~= Seq::<u8>::empty());
    }
}

/// Reads the big-endian value of the first `n` bytes of `buf`.
pub fn be_read(buf: &[u8], n: usize) -> (v: u64)
    requires
        n <= 8,
        n <= buf.len(),
    ensures
        v as nat == be_value(buf@.take(n as int)),
{
    let mut v: u64 = 0;
    let mut i: usize = 0;
    while i < n
        invariant
            i <= n <= 8,
            n <= buf.len(),
            v as nat == be_value(buf@.take(i as int)),
        decreases n - i,
    {
        proof {
            lemma_be_value_bound(buf@.take(i as int));
            lemma_be_value_take(buf@, i as int);
            lemma_pow256_values();
            lemma_pow256_le(i as nat, 7);
            assert(v * 256 + buf@[i as int] < 256 * pow256(i as nat)) by (nonlinear_arith)
                requires
                    v < pow256(i as nat),
                    buf@[i as int] < 256,
            ;
            assert(256 * pow256(7) == pow256(8));
        }
        v = v * 256 + buf[i] as u64;
        i += 1;
    }
    v
}

pub proof fn lemma_pow256_le(a: nat, b: nat)
    requires
        a <= b,
    ensures
        pow256(a) <= pow256(b),
    decreases b,
{
    if a < b {
        lemma_pow256_le(a, (b - 1) as nat);
        lemma_pow256_positive((b - 1) as nat);
    }
}

/// The first two bytes of `buf` as a big-endian `u16`, if there are two.
pub fn read_u16_be(buf: &[u8]) -> (r: Option<u16>)
    ensures
        r is None <==> buf.len() < 2,
        r matches Some(v) ==> v as nat == be_value(buf@.take(2)),
{
    if buf.len() < 2 {
        return None;
    }
    let v = be_read(buf, 2);
    proof {
        lemma_be_value_bound(buf@.take(2));
        lemma_pow256_values();
    }
    Some(v as u16)
}

/// The first four bytes of `buf` as a big-endian `u32`, if there are four.
pub fn read_u32_be(buf: &[u8]) -> (r: Option<u32>)
    ensures
        r is None <==> buf.len() < 4,
        r matches Some(v) ==> v as nat == be_value(buf@.take(4)),
{
    if buf.len() < 4 {
        return None;
    }
    let v = be_read(buf, 4);
    proof {
        lemma_be_value_bound(buf@.take(4));
        lemma_pow256_values();
    }
    Some(v as u32)
}

/// The first eight bytes of `buf` as a big-endian `u64`, if there are eight.
pub fn read_u64_be(buf: &[u8]) -> (r: Option<u64>)
    ensures
        r is None <==> buf.len() < 8,
        r matches Some(v) ==> v as nat == be_value(buf@.take(8)),
{
    if buf.len() < 8 {
        return None;
    }
    Some(be_read(buf, 8))
}

} // verus!

verus! {

/// Appends every byte of `s` to `out`.
pub fn push_all(out: &mut Vec<u8>, s: &[u8])
    ensures
        final(out)@ == old(out)@ + s@,
{
    let mut i: usize = 0;
    while i < s.len()
        invariant
            i <= s.len(),
            out@ == old(out)@ + s@.take(i as int),
        decreases s.len() - i,
    {
        out.push(s[i]);
        assert(s@.take(i + 1) == s@.take(i as int).push(s@[i as int]));
        i += 1;
    }
    assert(s@.take(s.len() as int) == s@);
}

/// The bytes `s[from..to]` as a new vector.
pub fn copy_range(s: &[u8], from: usize, to: usize) -> (v: Vec<u8>)
    requires
        from <= to <= s.len(),
    ensures
        v@ == s@.subrange(from as int, to as int),
{
    let mut v: Vec<u8> = Vec::new();
    let mut i: usize = from;
    while i < to
        invariant
            from <= i <= to <= s.len(),
            v@ == s@.subrange(from as int, i as int),
        decreases to - i,
    {
        v.push(s[i]);
        assert(s@.subrange(from as int, i + 1) == s@.subrange(from as int, i as int).push(s@[i as int]));
        i += 1;
    }
    v
}

} // verus!
