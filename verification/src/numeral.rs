//! Decimal rendering of the numeric amount a balance query returns.
use vstd::prelude::*;

verus! {

/// The character of a single decimal digit value.
pub open spec fn dec_digit_char(d: u8) -> char {
    match d {
        0u8 => '0',
        1u8 => '1',
        2u8 => '2',
        3u8 => '3',
        4u8 => '4',
        5u8 => '5',
        6u8 => '6',
        7u8 => '7',
        8u8 => '8',
        _ => '9',
    }
}

/// The ordinary decimal rendering of a natural number: most significant
/// digit first, no leading zero except for zero itself.
pub open spec fn dec_render(n: nat) -> Seq<char>
    decreases n,
{
    if n < 10 {
        seq![dec_digit_char(n as u8)]
    } else {
        dec_render(n / 10).push(dec_digit_char((n % 10) as u8))
    }
}

/// A decimal rendering always has at least one character.
pub proof fn lemma_dec_render_nonempty(n: nat)
    ensures
        dec_render(n).len() >= 1,
    decreases n,
{
    if n >= 10 {
        lemma_dec_render_nonempty(n / 10);
    }
}

/// The character of a digit value below ten.
fn dec_digit_str(d: u8) -> (r: &'static str)
    requires
        d < 10,
    ensures
        r@ == seq![dec_digit_char(d)],
{
    let r: &'static str = match d {
        0u8 => "0",
        1u8 => "1",
        2u8 => "2",
        3u8 => "3",
        4u8 => "4",
        5u8 => "5",
        6u8 => "6",
        7u8 => "7",
        8u8 => "8",
        _ => "9",
    };
    proof {
        reveal_strlit("0");
        reveal_strlit("1");
        reveal_strlit("2");
        reveal_strlit("3");
        reveal_strlit("4");
        reveal_strlit("5");
        reveal_strlit("6");
        reveal_strlit("7");
        reveal_strlit("8");
        reveal_strlit("9");
        assert(r@ =~= seq![dec_digit_char(d)]);
    }
    r
}

/// Renders an amount in ordinary decimal notation.
pub fn u64_to_decimal(n: u64) -> (r: String)
    ensures
        r@ == dec_render(n as nat),
    decreases n,
{
    if n < 10 {
        String::from_str(dec_digit_str(n as u8))
    } else {
        let mut out = u64_to_decimal(n / 10);
        out.append(dec_digit_str((n % 10) as u8));
        proof {
            assert(out@ =~= dec_render(n as nat));
        }
        out
    }
}

} // verus!
