//! 256-bit words kept as byte strings, and the little arithmetic the
//! pipeline needs on them: comparison, subtraction and modular reduction.
//!
//! Field elements cross this library's boundary in their canonical 32-byte
//! representation, so all reasoning is done directly over byte strings: the
//! numeric value of a big-endian byte string is pinned down by [`be_val`],
//! and every operation is specified against it.

use vstd::prelude::*;
use vstd::arithmetic::div_mod::lemma_fundamental_div_mod_converse;
use vstd::arithmetic::mul::lemma_mul_inequality;

verus! {

/// The numeric value of a big-endian byte string.
pub open spec fn be_val(s: Seq<u8>) -> nat
    decreases s.len(),
{
    if s.len() == 0 {
        0
    } else {
        be_val(s.drop_last()) * 256 + s.last() as nat
    }
}

/// `256 ^ n`.
pub open spec fn pow256(n: nat) -> nat
    decreases n,
{
    if n == 0 {
        1
    } else {
        256 * pow256((n - 1) as nat)
    }
}

/// The byte string read in the opposite order.
pub open spec fn rev_bytes(s: Seq<u8>) -> Seq<u8> {
    Seq::new(s.len(), |i: int| s[s.len() - 1 - i])
}

pub proof fn lemma_pow256_pos(n: nat)
    ensures
        pow256(n) >= 1,
    decreases n,
{
    if n > 0 {
        lemma_pow256_pos((n - 1) as nat);
    }
}

/// The value of a single byte is the byte itself.
pub proof fn lemma_be_val_single(x: u8)
    ensures
        be_val(seq![x]) == x,
{
    assert(seq![x].drop_last() =~= Seq::<u8>::empty());
    assert(be_val(Seq::<u8>::empty()) == 0);
}

/// A byte string's value is below `256 ^ len`.
pub proof fn lemma_be_val_bound(s: Seq<u8>)
    ensures
        be_val(s) < pow256(s.len()),
    decreases s.len(),
{
    if s.len() > 0 {
        lemma_be_val_bound(s.drop_last());
    }
}

/// Concatenation splits the value: the left part is shifted past the right.
pub proof fn lemma_be_val_append(a: Seq<u8>, b: Seq<u8>)
    ensures
        be_val(a + b) == be_val(a) * pow256(b.len()) + be_val(b),
    decreases b.len(),
{
    if b.len() == 0 {
        assert(a + b =~= a);
        assert(pow256(0) == 1);
        assert(be_val(b) == 0);
        assert(be_val(a + b) == be_val(a) * pow256(b.len()) + be_val(b));
    } else {
        lemma_be_val_append(a, b.drop_last());
        assert((a + b).drop_last() =~= a + b.drop_last());
        assert((a + b).last() == b.last());
        assert(be_val(a + b) == (be_val(a) * pow256((b.len() - 1) as nat) + be_val(b.drop_last()))
            * 256 + b.last()) by {
            assert(be_val(a + b) == be_val((a + b).drop_last()) * 256 + (a + b).last());
        }
        let p1 = pow256((b.len() - 1) as nat);
        assert(pow256(b.len()) == 256 * p1);
        assert(be_val(b) == be_val(b.drop_last()) * 256 + b.last() as nat);
        assert(be_val(a) * pow256(b.len()) == (be_val(a) * p1) * 256) by (nonlinear_arith)
            requires
                pow256(b.len()) == 256 * p1,
        ;
        assert(be_val(a + b) == be_val(a) * pow256(b.len()) + be_val(b));
    }
}

/// Peeling one byte off the front of a suffix.
pub proof fn lemma_be_val_suffix_step(s: Seq<u8>, i: int)
    requires
        0 <= i < s.len(),
    ensures
        be_val(s.subrange(i, s.len() as int)) == s[i] * pow256((s.len() - i - 1) as nat) + be_val(
            s.subrange(i + 1, s.len() as int),
        ),
{
    let tail = s.subrange(i + 1, s.len() as int);
    assert(s.subrange(i, s.len() as int) =~= seq![s[i]] + tail);
    lemma_be_val_append(seq![s[i]], tail);
    lemma_be_val_single(s[i]);
}

/// Two equally long byte strings order numerically as they order
/// lexicographically: an equal prefix and a smaller byte decide.
pub proof fn lemma_be_val_lex(a: Seq<u8>, b: Seq<u8>, i: int)
    requires
        a.len() == b.len(),
        0 <= i < a.len(),
        a.subrange(0, i) == b.subrange(0, i),
        a[i] < b[i],
    ensures
        be_val(a) < be_val(b),
{
    let n = a.len() as int;
    let p = pow256((n - i - 1) as nat);
    assert(a =~= a.subrange(0, i + 1) + a.subrange(i + 1, n));
    assert(b =~= b.subrange(0, i + 1) + b.subrange(i + 1, n));
    lemma_be_val_append(a.subrange(0, i + 1), a.subrange(i + 1, n));
    lemma_be_val_append(b.subrange(0, i + 1), b.subrange(i + 1, n));
    assert(a.subrange(0, i + 1).drop_last() =~= a.subrange(0, i));
    assert(b.subrange(0, i + 1).drop_last() =~= b.subrange(0, i));
    assert(be_val(a.subrange(0, i + 1)) == be_val(a.subrange(0, i)) * 256 + a[i]);
    assert(be_val(b.subrange(0, i + 1)) == be_val(b.subrange(0, i)) * 256 + b[i]);
    lemma_be_val_bound(a.subrange(i + 1, n));
    lemma_pow256_pos((n - i - 1) as nat);
    assert(be_val(a.subrange(0, i + 1)) + 1 <= be_val(b.subrange(0, i + 1)));
    lemma_mul_inequality(
        be_val(a.subrange(0, i + 1)) as int + 1,
        be_val(b.subrange(0, i + 1)) as int,
        p as int,
    );
    assert((be_val(a.subrange(0, i + 1)) + 1) * p == be_val(a.subrange(0, i + 1)) * p + p)
        by (nonlinear_arith)
        requires p >= 1,
    ;
}

/// Two equally long byte strings with the same value are the same bytes:
/// a word's value determines its representation.
pub proof fn lemma_be_val_injective(a: Seq<u8>, b: Seq<u8>)
    requires
        a.len() == b.len(),
        be_val(a) == be_val(b),
    ensures
        a == b,
    decreases a.len(),
{
    if a.len() == 0 {
        assert(a =~= b);
    } else {
        lemma_fundamental_div_mod_converse(
            be_val(a) as int,
            256,
            be_val(a.drop_last()) as int,
            a.last() as int,
        );
        lemma_fundamental_div_mod_converse(
            be_val(b) as int,
            256,
            be_val(b.drop_last()) as int,
            b.last() as int,
        );
        assert(a.last() == b.last());
        assert(be_val(a.drop_last()) == be_val(b.drop_last()));
        lemma_be_val_injective(a.drop_last(), b.drop_last());
        assert(a =~= a.drop_last().push(a.last()));
        assert(b =~= b.drop_last().push(b.last()));
    }
}

/// Whether `a` is numerically below `b`, both read as big-endian words.
pub fn be_lt(a: &Vec<u8>, b: &Vec<u8>) -> (r: bool)
    requires
        a@.len() == b@.len(),
    ensures
        r == (be_val(a@) < be_val(b@)),
{
    let n = a.len();
    let mut i: usize = 0;
    while i < n
        invariant
            0 <= i <= n,
            n == a@.len() == b@.len(),
            a@.subrange(0, i as int) =~= b@.subrange(0, i as int),
        decreases n - i,
    {
        if a[i] < b[i] {
            proof {
                lemma_be_val_lex(a@, b@, i as int);
            }
            return true;
        }
        if a[i] > b[i] {
            proof {
                lemma_be_val_lex(b@, a@, i as int);
            }
            return false;
        }
        assert(a@.subrange(0, i + 1) =~= b@.subrange(0, i + 1));
        i = i + 1;
    }
    proof {
        assert(a@.subrange(0, n as int) =~= a@);
        assert(b@.subrange(0, n as int) =~= b@);
        assert(a@ == b@);
    }
    false
}

/// Big-endian subtraction with borrow; the minuend must dominate.
pub fn be_sub(a: &Vec<u8>, b: &Vec<u8>) -> (r: Vec<u8>)
    requires
        a@.len() == b@.len(),
        be_val(b@) <= be_val(a@),
    ensures
        r@.len() == a@.len(),
        be_val(r@) == be_val(a@) - be_val(b@),
{
    let n = a.len();
    let mut r: Vec<u8> = Vec::new();
    let mut k: usize = 0;
    // Build the result least-significant first, then reverse.
    let mut borrow: u8 = 0;
    while k < n
        invariant
            0 <= k <= n,
            n == a@.len() == b@.len(),
            r@.len() == k,
            borrow == 0 || borrow == 1,
            rev_bytes(r@) =~= Seq::new(k as nat, |i: int| r@[k - 1 - i]),
            be_val(rev_bytes(r@)) + be_val(b@.subrange(n - k, n as int)) == be_val(
                a@.subrange(n - k, n as int),
            ) + (borrow as nat) * pow256(k as nat),
        decreases n - k,
    {
        let i = n - 1 - k;
        let ai: u16 = a[i] as u16;
        let bi: u16 = b[i] as u16 + borrow as u16;
        let ghost old_r = r@;
        let ghost old_borrow = borrow;
        let d: u8;
        if ai >= bi {
            d = (ai - bi) as u8;
            borrow = 0;
        } else {
            d = (ai + 256 - bi) as u8;
            borrow = 1;
        }
        r.push(d);
        proof {
            let k1 = (k + 1) as int;
            assert(rev_bytes(r@) =~= seq![d] + rev_bytes(old_r));
            lemma_be_val_append(seq![d], rev_bytes(old_r));
            lemma_be_val_single(d);
            lemma_be_val_suffix_step(a@, n - k1);
            lemma_be_val_suffix_step(b@, n - k1);
            assert((d as nat) + (b@[n - k1] as nat) + old_borrow == (a@[n - k1] as nat) + (
            borrow as nat) * 256);
            assert((d as nat) * pow256(k as nat) + (b@[n - k1] as nat) * pow256(k as nat) + (
            old_borrow as nat) * pow256(k as nat) == (a@[n - k1] as nat) * pow256(k as nat) + (
            borrow as nat) * 256 * pow256(k as nat)) by (nonlinear_arith)
                requires
                    (d as nat) + (b@[n - k1] as nat) + old_borrow == (a@[n - k1] as nat) + (
                    borrow as nat) * 256,
            ;
            assert(pow256(k1 as nat) == 256 * pow256(k as nat));
            assert((borrow as nat) * 256 * pow256(k as nat) == (borrow as nat) * (256 * pow256(
            k as nat))) by (nonlinear_arith);
        }
        k = k + 1;
    }
    proof {
        assert(a@.subrange(0, n as int) =~= a@);
        assert(b@.subrange(0, n as int) =~= b@);
        if borrow == 1 {
            lemma_be_val_bound(rev_bytes(r@));
            lemma_pow256_pos(n as nat);
            assert(false);
        }
    }
    // Reverse into big-endian order.
    let mut out: Vec<u8> = Vec::new();
    let mut j: usize = 0;
    while j < n
        invariant
            0 <= j <= n,
            r@.len() == n,
            out@.len() == j,
            out@ =~= rev_bytes(r@).subrange(0, j as int),
        decreases n - j,
    {
        out.push(r[n - 1 - j]);
        assert(out@ =~= rev_bytes(r@).subrange(0, j + 1));
        j = j + 1;
    }
    proof {
        assert(out@ =~= rev_bytes(r@));
    }
    out
}

/// The remainder of a big-endian word modulo a positive big-endian modulus
/// of the same width.
pub fn be_reduce(x: &Vec<u8>, m: &Vec<u8>) -> (r: Vec<u8>)
    requires
        x@.len() == m@.len(),
        be_val(m@) > 0,
    ensures
        r@.len() == x@.len(),
        be_val(r@) == be_val(x@) % be_val(m@),
{
    let mut r: Vec<u8> = x.clone();
    let ghost mval = be_val(m@);
    let ghost mut q: nat = 0;
    while !be_lt(&r, m)
        invariant
            r@.len() == x@.len() == m@.len(),
            mval == be_val(m@),
            mval > 0,
            be_val(r@) + q * mval == be_val(x@),
        decreases be_val(r@),
    {
        let ghost before = be_val(r@);
        r = be_sub(&r, m);
        proof {
            q = q + 1;
            assert(be_val(r@) + q * mval == be_val(x@)) by (nonlinear_arith)
                requires
                    be_val(r@) == before - mval,
                    before + (q - 1) * mval == be_val(x@),
            ;
        }
    }
    proof {
        lemma_fundamental_div_mod_converse(
            be_val(x@) as int,
            mval as int,
            q as int,
            be_val(r@) as int,
        );
    }
    r
}

/// Copy of a byte string with the bytes in the opposite order.
pub fn reverse_bytes(v: &Vec<u8>) -> (r: Vec<u8>)
    ensures
        r@ == rev_bytes(v@),
{
    let n = v.len();
    let mut out: Vec<u8> = Vec::new();
    let mut j: usize = 0;
    while j < n
        invariant
            0 <= j <= n,
            n == v@.len(),
            out@.len() == j,
            out@ =~= rev_bytes(v@).subrange(0, j as int),
        decreases n - j,
    {
        out.push(v[n - 1 - j]);
        assert(out@ =~= rev_bytes(v@).subrange(0, j + 1));
        j = j + 1;
    }
    proof {
        assert(out@ =~= rev_bytes(v@));
    }
    out
}

/// Reversal undoes itself.
pub proof fn lemma_rev_involutive(s: Seq<u8>)
    ensures
        rev_bytes(rev_bytes(s)) == s,
{
    assert(rev_bytes(rev_bytes(s)) =~= s);
}

/// The scalar field modulus of the commitment scheme's curve, as a
/// big-endian word: the blob evaluation challenge is reduced into its range.
pub fn bls_modulus() -> (r: Vec<u8>)
    ensures
        r@ == spec_bls_modulus(),
{
    let r: Vec<u8> = vec![
        0x73u8, 0xed, 0xa7, 0x53, 0x29, 0x9d, 0x7d, 0x48, 0x33, 0x39, 0xd8, 0x08, 0x09, 0xa1,
        0xd8, 0x05, 0x53, 0xbd, 0xa4, 0x02, 0xff, 0xfe, 0x5b, 0xfe, 0xff, 0xff, 0xff, 0xff, 0x00,
        0x00, 0x00, 0x01,
    ];
    proof {
        assert(r@ =~= spec_bls_modulus());
    }
    r
}

/// See [`bls_modulus`].
pub open spec fn spec_bls_modulus() -> Seq<u8> {
    seq![
        0x73u8, 0xed, 0xa7, 0x53, 0x29, 0x9d, 0x7d, 0x48, 0x33, 0x39, 0xd8, 0x08, 0x09, 0xa1,
        0xd8, 0x05, 0x53, 0xbd, 0xa4, 0x02, 0xff, 0xfe, 0x5b, 0xfe, 0xff, 0xff, 0xff, 0xff, 0x00,
        0x00, 0x00, 0x01,
    ]
}

/// The scalar field modulus of the proof system's native curve, as a
/// big-endian word: public values are canonical representatives below it.
pub fn bn254_modulus() -> (r: Vec<u8>)
    ensures
        r@ == spec_bn254_modulus(),
{
    let r: Vec<u8> = vec![
        0x30u8, 0x64, 0x4e, 0x72, 0xe1, 0x31, 0xa0, 0x29, 0xb8, 0x50, 0x45, 0xb6, 0x81, 0x81,
        0x58, 0x5d, 0x28, 0x33, 0xe8, 0x48, 0x79, 0xb9, 0x70, 0x91, 0x43, 0xe1, 0xf5, 0x93, 0xf0,
        0x00, 0x00, 0x01,
    ];
    proof {
        assert(r@ =~= spec_bn254_modulus());
    }
    r
}

/// See [`bn254_modulus`].
pub open spec fn spec_bn254_modulus() -> Seq<u8> {
    seq![
        0x30u8, 0x64, 0x4e, 0x72, 0xe1, 0x31, 0xa0, 0x29, 0xb8, 0x50, 0x45, 0xb6, 0x81, 0x81,
        0x58, 0x5d, 0x28, 0x33, 0xe8, 0x48, 0x79, 0xb9, 0x70, 0x91, 0x43, 0xe1, 0xf5, 0x93, 0xf0,
        0x00, 0x00, 0x01,
    ]
}

/// The modulus is a 32-byte word with a positive value.
pub proof fn lemma_bls_modulus_wf()
    ensures
        spec_bls_modulus().len() == 32,
        be_val(spec_bls_modulus()) > 0,
{
    let m = spec_bls_modulus();
    assert(m.len() == 32);
    assert(be_val(m) > 0) by {
        assert(m.last() == 1);
    }
}

} // verus!
