//! Rendering of the synthetic value as `0x`-prefixed lowercase hexadecimal
//! text, given as bytes.

use vstd::prelude::*;

verus! {

/// The byte of the lowercase hexadecimal digit for a value below 16.
pub open spec fn hex_digit(v: nat) -> u8
    recommends
        v < 16,
{
    if v < 10 {
        (48 + v) as u8
    } else {
        (87 + v) as u8
    }
}

/// The lowercase hexadecimal digits of `v`, most significant first, with no
/// leading zeros (a single `0` digit for zero itself).
pub open spec fn hex_digits(v: nat) -> Seq<u8>
    decreases v,
{
    if v < 16 {
        seq![hex_digit(v)]
    } else {
        hex_digits(v / 16).push(hex_digit(v % 16))
    }
}

/// The full text rendering of a value: `0x` followed by its hexadecimal
/// digits.
pub open spec fn hex_render(v: nat) -> Seq<u8> {
    seq![48u8, 120u8] + hex_digits(v)
}

/// A value has at least one hexadecimal digit.
proof fn lemma_hex_digits_nonempty(v: nat)
    ensures
        hex_digits(v).len() >= 1,
    decreases v,
{
    if v >= 16 {
        lemma_hex_digits_nonempty(v / 16);
    }
}

/// A 16-bit value has at most four hexadecimal digits, so its rendering has
/// at most six bytes.
pub proof fn lemma_hex_digits_len_u16(v: nat)
    requires
        v < 0x10000,
    ensures
        hex_digits(v).len() <= 4,
{
    if v >= 16 {
        let v1 = v / 16;
        assert(v1 < 0x1000);
        if v1 >= 16 {
            let v2 = v1 / 16;
            assert(v2 < 0x100);
            if v2 >= 16 {
                let v3 = v2 / 16;
                assert(v3 < 16);
                assert(hex_digits(v3).len() == 1);
            }
            assert(hex_digits(v2).len() <= 2);
        }
        assert(hex_digits(v1).len() <= 3);
    }
}

fn push_hex_digits(v: u16, out: &mut Vec<u8>)
    ensures
        final(out)@ == old(out)@ + hex_digits(v as nat),
    decreases v,
{
    if v >= 16 {
        push_hex_digits(v / 16, out);
    }
    let d: u16 = v % 16;
    let b: u8 = if d < 10 {
        (48 + d) as u8
    } else {
        (87 + d) as u8
    };
    out.push(b);
    proof {
        assert(out@ =~= old(out)@ + hex_digits(v as nat));
    }
}

/// Renders a value as the bytes of its `0x`-prefixed lowercase hexadecimal
/// text.
pub fn render_hex(v: u16) -> (r: Vec<u8>)
    ensures
        r@ == hex_render(v as nat),
        r@.len() >= 3,
{
    let mut out: Vec<u8> = Vec::new();
    out.push(48);
    out.push(120);
    push_hex_digits(v, &mut out);
    proof {
        lemma_hex_digits_nonempty(v as nat);
        assert(out@ =~= hex_render(v as nat));
    }
    out
}

} // verus!
