//! The offset column: a byte count in lowercase hexadecimal, zero-padded to
//! at least eight digits, as every line of the dump and the closing total
//! line show it.

use vstd::prelude::*;

use crate::render::hex_digit;
use crate::render::spec_hex_digit;

verus! {

/// A sequence of `k` copies of one character.
pub open spec fn char_repeat(c: char, k: nat) -> Seq<char> {
    Seq::new(k, |i: int| c)
}

/// The hexadecimal digits of `n`, most significant first, with no leading
/// zeros (a single `0` for zero).
pub open spec fn spec_hex_digits(n: nat) -> Seq<char>
    decreases n,
{
    if n < 16 {
        seq![spec_hex_digit(n as int)]
    } else {
        spec_hex_digits(n / 16).push(spec_hex_digit((n % 16) as int))
    }
}

/// How many `0` characters pad `n`'s hexadecimal digits out to eight.
pub open spec fn spec_pad_zeros(n: nat) -> nat {
    if n < 0x10 {
        7
    } else if n < 0x100 {
        6
    } else if n < 0x1000 {
        5
    } else if n < 0x10000 {
        4
    } else if n < 0x100000 {
        3
    } else if n < 0x1000000 {
        2
    } else if n < 0x10000000 {
        1
    } else {
        0
    }
}

/// `n` in lowercase hexadecimal, zero-padded to at least eight digits: the
/// offset format of the dump.
pub open spec fn spec_hex8(n: nat) -> Seq<char> {
    char_repeat('0', spec_pad_zeros(n)) + spec_hex_digits(n)
}

/// An offset below 2^32 always formats as exactly eight digits.
pub proof fn lemma_hex8_len(n: nat)
    requires
        n < 0x100000000,
    ensures
        spec_hex8(n).len() == 8,
{
    lemma_hex_digits_len(n);
}

proof fn lemma_hex_digits_len(n: nat)
    requires
        n < 0x100000000,
    ensures
        spec_hex_digits(n).len() + spec_pad_zeros(n) == 8,
    decreases n,
{
    if n >= 16 {
        lemma_hex_digits_len(n / 16);
    }
}

/// Append the minimal hexadecimal digits of `n`.
fn push_hex_digits(out: &mut Vec<char>, n: usize)
    ensures
        final(out)@ == old(out)@ + spec_hex_digits(n as nat),
    decreases n,
{
    if n >= 16 {
        push_hex_digits(out, n / 16);
    }
    out.push(hex_digit((n % 16) as u8));
    proof {
        if n < 16 {
            assert(out@ =~= old(out)@ + spec_hex_digits(n as nat));
        } else {
            assert(out@ =~= old(out)@ + spec_hex_digits(n as nat));
        }
    }
}

/// Append `n` in the eight-digit zero-padded offset format.
pub fn push_hex8(out: &mut Vec<char>, n: usize)
    ensures
        final(out)@ == old(out)@ + spec_hex8(n as nat),
{
    let pad: usize = if n < 0x10 {
        7
    } else if n < 0x100 {
        6
    } else if n < 0x1000 {
        5
    } else if n < 0x10000 {
        4
    } else if n < 0x100000 {
        3
    } else if n < 0x1000000 {
        2
    } else if n < 0x10000000 {
        1
    } else {
        0
    };
    assert(pad == spec_pad_zeros(n as nat));
    let mut k: usize = 0;
    while k < pad
        invariant
            k <= pad,
            out@ == old(out)@ + char_repeat('0', k as nat),
        decreases pad - k,
    {
        out.push('0');
        k = k + 1;
        proof {
            assert(out@ =~= old(out)@ + char_repeat('0', k as nat));
        }
    }
    push_hex_digits(out, n);
    proof {
        assert(out@ =~= old(out)@ + spec_hex8(n as nat));
    }
}

} // verus!
