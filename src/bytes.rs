use vstd::prelude::*;

verus! {

/// The unsigned integer that a little-endian byte string denotes.
pub open spec fn le_value(s: Seq<u8>) -> nat
    decreases s.len(),
{
    if s.len() == 0 {
        0
    } else {
        s[0] as nat + 256 * le_value(s.drop_first())
    }
}

/// `256` raised to `n`.
pub open spec fn pow256(n: nat) -> nat
    decreases n,
{
    if n == 0 {
        1
    } else {
        256 * pow256((n - 1) as nat)
    }
}

/// The `n` least significant bytes of `v`, least significant first.
pub open spec fn le_bytes(v: nat, n: nat) -> Seq<u8>
    decreases n,
{
    if n == 0 {
        Seq::empty()
    } else {
        seq![(v % 256) as u8] + le_bytes(v / 256, (n - 1) as nat)
    }
}

pub proof fn lemma_le_value_bound(s: Seq<u8>)
    ensures
        le_value(s) < pow256(s.len()),
    decreases s.len(),
{
    if s.len() > 0 {
        lemma_le_value_bound(s.drop_first());
        let p = pow256((s.len() - 1) as nat);
        assert(le_value(s) <= 255 + 256 * (p - 1)) by (nonlinear_arith)
            requires
                le_value(s) == s[0] as nat + 256 * le_value(s.drop_first()),
                le_value(s.drop_first()) < p,
                s[0] <= 255,
        ;
    }
}

pub proof fn lemma_le_bytes_len(v: nat, n: nat)
    ensures
        le_bytes(v, n).len() == n,
    decreases n,
{
    if n > 0 {
        lemma_le_bytes_len(v / 256, (n - 1) as nat);
    }
}

/// Encoding `v` in `n` bytes and reading them back gives `v` when it fits.
pub proof fn lemma_le_round_trip(v: nat, n: nat)
    requires
        v < pow256(n),
    ensures
        le_value(le_bytes(v, n)) == v,
        le_bytes(v, n).len() == n,
    decreases n,
{
    lemma_le_bytes_len(v, n);
    if n > 0 {
        let p = pow256((n - 1) as nat);
        assert(v / 256 < p) by (nonlinear_arith)
            requires
                v < 256 * p,
        ;
        lemma_le_round_trip(v / 256, (n - 1) as nat);
        assert(le_bytes(v, n).drop_first() =~= le_bytes(v / 256, (n - 1) as nat));
    } else {
        assert(v == 0);
    }
}

/// Reading a byte string back as an integer and writing it again gives it back.
pub proof fn lemma_le_bytes_of_value(s: Seq<u8>)
    ensures
        le_bytes(le_value(s), s.len()) =~= s,
    decreases s.len(),
{
    if s.len() > 0 {
        let rest = s.drop_first();
        lemma_le_bytes_of_value(rest);
        let v = le_value(s);
        assert(v % 256 == s[0] as nat && v / 256 == le_value(rest)) by (nonlinear_arith)
            requires
                v == s[0] as nat + 256 * le_value(rest),
                s[0] <= 255,
        ;
        assert(s =~= seq![s[0]] + rest);
    }
}

/// Reads the little-endian `u64` stored in `data[at..at + 8]`.
pub fn read_u64_le(data: &[u8], at: usize) -> (r: u64)
    requires
        at + 8 <= data@.len(),
    ensures
        r as nat == le_value(data@.subrange(at as int, at + 8)),
{
    read_le_bytes(data, at, 8)
}

/// Reads the little-endian integer stored in `data[at..at + n]`.
pub fn read_le_bytes(data: &[u8], at: usize, n: usize) -> (r: u64)
    requires
        n <= 8,
        at + n <= data@.len(),
    ensures
        r as nat == le_value(data@.subrange(at as int, at + n)),
{
    let len: usize = data.len();
    let mut v: u64 = 0;
    let mut k: usize = n;
    proof {
        assert(data@.subrange(at + n, at + n) =~= Seq::<u8>::empty());
    }
    while k > 0
        invariant
            k <= n <= 8,
            at + n <= data@.len(),
            len == data@.len(),
            v as nat == le_value(data@.subrange(at + k, at + n)),
            v < pow256((n - k) as nat),
        decreases k,
    {
        k = k - 1;
        let ghost tail = data@.subrange(at + k + 1, at + n);
        let ghost cur = data@.subrange(at + k, at + n);
        proof {
            assert(cur.drop_first() =~= tail);
            assert(pow256((n - k) as nat) == 256 * pow256((n - k - 1) as nat));
            lemma_pow256_increases((n - k) as nat, 8);
            lemma_pow256_8();
        }
        let b = data[at + k];
        proof {
            let p = pow256((n - k - 1) as nat);
            assert(v * 256 + b < 256 * p) by (nonlinear_arith)
                requires
                    v < p,
                    b <= 255,
            ;
        }
        v = v * 256 + b as u64;
    }
    v
}

pub proof fn lemma_pow256_8()
    ensures
        pow256(8) == 0x1_0000_0000_0000_0000int,
{
    reveal_with_fuel(pow256, 9);
}

pub proof fn lemma_pow256_increases(a: nat, b: nat)
    requires
        a <= b,
    ensures
        1 <= pow256(a) <= pow256(b),
    decreases b,
{
    if b > 0 {
        if a < b {
            lemma_pow256_increases(a, (b - 1) as nat);
        } else {
            lemma_pow256_increases((a - 1) as nat, (b - 1) as nat);
        }
    }
}

/// Appends the eight little-endian bytes of `v` to `out`.
pub fn push_u64_le(out: &mut Vec<u8>, v: u64)
    ensures
        final(out)@ == old(out)@ + le_bytes(v as nat, 8),
{
    push_le_bytes(out, v, 8);
}

/// Appends the `n` least significant bytes of `v` to `out`, least significant first.
pub fn push_le_bytes(out: &mut Vec<u8>, v: u64, n: usize)
    requires
        n <= 8,
    ensures
        final(out)@ == old(out)@ + le_bytes(v as nat, n as nat),
{
    let mut x: u64 = v;
    let mut k: usize = 0;
    let ghost start = old(out)@;
    assert(pow256(0) == 1);
    while k < n
        invariant
            k <= n <= 8,
            x as nat == v as nat / pow256(k as nat) as nat,
            out@ + le_bytes(x as nat, (n - k) as nat) == start + le_bytes(v as nat, n as nat),
        decreases n - k,
    {
        proof {
                    lemma_pow256_increases(0, k as nat);
            vstd::arithmetic::div_mod::lemma_div_denominator(
                v as int,
                pow256(k as nat) as int,
                256,
            );
            assert(pow256((k + 1) as nat) == pow256(k as nat) * 256);
            assert(le_bytes(x as nat, (n - k) as nat) =~= seq![(x % 256) as u8] + le_bytes(
                (x / 256) as nat,
                (n - k - 1) as nat,
            ));
        }
        out.push((x % 256) as u8);
        x = x / 256;
        k = k + 1;
    }
    proof {
        assert(le_bytes(x as nat, 0) =~= Seq::<u8>::empty());
        assert(out@ =~= start + le_bytes(v as nat, n as nat));
    }
}

} // verus!
