//! Decimal and boolean text as written by the command-line replies.

use vstd::prelude::*;

verus! {

/// ASCII space.
pub const SPACE: u8 = 32;

/// The decimal digits of `n`, most significant first, without leading
/// zeros (`0` is the single digit `0`).
pub open spec fn decimal(n: nat) -> Seq<u8>
    decreases n,
{
    if n < 10 {
        seq![(48 + n) as u8]
    } else {
        decimal(n / 10).push((48 + n % 10) as u8)
    }
}

/// `true` or `false`.
pub open spec fn bool_text(b: bool) -> Seq<u8> {
    if b {
        seq![116u8, 114u8, 117u8, 101u8]
    } else {
        seq![102u8, 97u8, 108u8, 115u8, 101u8]
    }
}

/// The decimal forms of `xs`, separated by single spaces.
pub open spec fn join_decimal(xs: Seq<u64>) -> Seq<u8>
    decreases xs.len(),
{
    if xs.len() == 0 {
        Seq::empty()
    } else if xs.len() == 1 {
        decimal(xs[0] as nat)
    } else {
        join_decimal(xs.drop_last()).push(SPACE) + decimal(xs.last() as nat)
    }
}

/// The textual forms of `xs`, separated by single spaces.
pub open spec fn join_bool(xs: Seq<bool>) -> Seq<u8>
    decreases xs.len(),
{
    if xs.len() == 0 {
        Seq::empty()
    } else if xs.len() == 1 {
        bool_text(xs[0])
    } else {
        join_bool(xs.drop_last()).push(SPACE) + bool_text(xs.last())
    }
}

/// `10^k`.
pub open spec fn pow10(k: nat) -> nat
    decreases k,
{
    if k == 0 {
        1
    } else {
        10 * pow10((k - 1) as nat)
    }
}

/// A number below `10^k` has at most `k` digits (and always at least one).
pub proof fn lemma_decimal_len(n: nat, k: nat)
    requires
        n < pow10(k),
    ensures
        1 <= decimal(n).len() <= if k == 0 { 1 } else { k },
    decreases n,
{
    if n >= 10 {
        assert(k >= 2) by {
            if k == 1 {
                assert(pow10(1) == 10 * pow10(0));
            } else if k == 0 {
            }
        }
        assert(pow10(k) == 10 * pow10((k - 1) as nat));
        lemma_decimal_len(n / 10, (k - 1) as nat);
    }
}

/// Appends the decimal digits of `n`.
pub fn push_decimal(v: &mut Vec<u8>, n: u64)
    ensures
        final(v)@ == old(v)@ + decimal(n as nat),
    decreases n,
{
    if n < 10 {
        v.push(48 + n as u8);
        assert(decimal(n as nat) == seq![(48 + n) as u8]);
    } else {
        push_decimal(v, n / 10);
        v.push(48 + (n % 10) as u8);
    }
}

/// Appends `true` or `false`.
pub fn push_bool(v: &mut Vec<u8>, b: bool)
    ensures
        final(v)@ == old(v)@ + bool_text(b),
{
    if b {
        v.push(116);
        v.push(114);
        v.push(117);
        v.push(101);
    } else {
        v.push(102);
        v.push(97);
        v.push(108);
        v.push(115);
        v.push(101);
    }
}

/// Appends the decimal forms of `xs`, separated by single spaces.
pub fn push_joined_decimal(v: &mut Vec<u8>, xs: &[u64])
    ensures
        final(v)@ == old(v)@ + join_decimal(xs@),
{
    let ghost start = v@;
    let mut i: usize = 0;
    while i < xs.len()
        invariant
            i <= xs@.len(),
            v@ == start + join_decimal(xs@.subrange(0, i as int)),
        decreases xs@.len() - i,
    {
        let ghost before = v@;
        if i > 0 {
            v.push(SPACE);
        }
        push_decimal(v, xs[i]);
        proof {
            let p = xs@.subrange(0, i + 1);
            assert(p.drop_last() =~= xs@.subrange(0, i as int));
            if i == 0 {
                assert(p =~= seq![xs@[0]]);
            }
        }
        i = i + 1;
    }
    assert(xs@.subrange(0, xs@.len() as int) =~= xs@);
}

/// Appends the textual forms of `xs`, separated by single spaces.
pub fn push_joined_bool(v: &mut Vec<u8>, xs: &[bool])
    ensures
        final(v)@ == old(v)@ + join_bool(xs@),
{
    let ghost start = v@;
    let mut i: usize = 0;
    while i < xs.len()
        invariant
            i <= xs@.len(),
            v@ == start + join_bool(xs@.subrange(0, i as int)),
        decreases xs@.len() - i,
    {
        if i > 0 {
            v.push(SPACE);
        }
        push_bool(v, xs[i]);
        proof {
            let p = xs@.subrange(0, i + 1);
            assert(p.drop_last() =~= xs@.subrange(0, i as int));
            if i == 0 {
                assert(p =~= seq![xs@[0]]);
            }
        }
        i = i + 1;
    }
    assert(xs@.subrange(0, xs@.len() as int) =~= xs@);
}

} // verus!
