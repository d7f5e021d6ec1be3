//! Decimal rendering of row indices.
//!
//! Text columns carry values of the form `"str_"` followed by the decimal
//! digits of a row index, so the synthesizer needs a verified
//! integer-to-string conversion together with the fact that distinct indices
//! render to distinct strings.

use vstd::prelude::*;

verus! {

/// The character for one decimal digit value.
pub open spec fn digit_char(d: nat) -> char {
    if d == 0 {
        '0'
    } else if d == 1 {
        '1'
    } else if d == 2 {
        '2'
    } else if d == 3 {
        '3'
    } else if d == 4 {
        '4'
    } else if d == 5 {
        '5'
    } else if d == 6 {
        '6'
    } else if d == 7 {
        '7'
    } else if d == 8 {
        '8'
    } else {
        '9'
    }
}

/// The decimal digits of `n`, most significant first, with no leading zeros
/// (`0` itself renders as `"0"`).
pub open spec fn dec_digits(n: nat) -> Seq<char>
    decreases n,
{
    if n < 10 {
        seq![digit_char(n)]
    } else {
        dec_digits(n / 10) + seq![digit_char(n % 10)]
    }
}

/// Appends the single digit `d` to `s`.
fn append_digit(s: &mut String, d: usize)
    requires
        d < 10,
    ensures
        final(s)@ == old(s)@ + seq![digit_char(d as nat)],
{
    let t: &str = if d == 0 {
        "0"
    } else if d == 1 {
        "1"
    } else if d == 2 {
        "2"
    } else if d == 3 {
        "3"
    } else if d == 4 {
        "4"
    } else if d == 5 {
        "5"
    } else if d == 6 {
        "6"
    } else if d == 7 {
        "7"
    } else if d == 8 {
        "8"
    } else {
        "9"
    };
    proof {
        reveal_strlit("0");
        reveal_strlit("1");
        reveal_strlit("2");
        reveal_strlit("3");
        reveal_strlit("4");
        reveal_strlit("5");
        reveal_strlit("6");
        reveal_strlit("7");
        reveal_strlit("8");
        reveal_strlit("9");
        assert(t@ =~= seq![digit_char(d as nat)]);
    }
    s.append(t);
}

/// Renders `n` in decimal.
pub fn format_usize(n: usize) -> (s: String)
    ensures
        s@ == dec_digits(n as nat),
    decreases n,
{
    let mut s = if n >= 10 {
        format_usize(n / 10)
    } else {
        String::new()
    };
    append_digit(&mut s, n % 10);
    proof {
        if n < 10 {
            assert(Seq::<char>::empty() + seq![digit_char((n % 10) as nat)] =~= seq![
                digit_char(n as nat),
            ]);
        }
    }
    s
}

/// Distinct digit values render to distinct characters.
pub proof fn lemma_digit_char_injective(a: nat, b: nat)
    requires
        a < 10,
        b < 10,
        digit_char(a) == digit_char(b),
    ensures
        a == b,
{
}

/// A decimal rendering is never empty.
pub proof fn lemma_dec_digits_nonempty(n: nat)
    ensures
        dec_digits(n).len() >= 1,
    decreases n,
{
    if n >= 10 {
        lemma_dec_digits_nonempty(n / 10);
    }
}

/// Distinct numbers have distinct decimal renderings.
pub proof fn lemma_dec_digits_injective(a: nat, b: nat)
    requires
        dec_digits(a) == dec_digits(b),
    ensures
        a == b,
    decreases a,
{
    if a < 10 && b < 10 {
        assert(dec_digits(a)[0] == digit_char(a));
        assert(dec_digits(b)[0] == digit_char(b));
        lemma_digit_char_injective(a, b);
    } else if a < 10 && b >= 10 {
        lemma_dec_digits_nonempty(b / 10);
        assert(dec_digits(b).len() >= 2);
    } else if a >= 10 && b < 10 {
        lemma_dec_digits_nonempty(a / 10);
        assert(dec_digits(a).len() >= 2);
    } else {
        let da = dec_digits(a / 10);
        let db = dec_digits(b / 10);
        assert(dec_digits(a).last() == digit_char(a % 10));
        assert(dec_digits(b).last() == digit_char(b % 10));
        lemma_digit_char_injective(a % 10, b % 10);
        assert(dec_digits(a).drop_last() =~= da);
        assert(dec_digits(b).drop_last() =~= db);
        lemma_dec_digits_injective(a / 10, b / 10);
    }
}

/// The fixed prefix of every synthesized text value.
pub open spec fn text_prefix() -> Seq<char> {
    seq!['s', 't', 'r', '_']
}

/// The synthesized text value for row index `i`: `"str_"` followed by the
/// decimal digits of `i`.
pub open spec fn text_value(i: nat) -> Seq<char> {
    text_prefix() + dec_digits(i)
}

/// Renders the text value for row index `i`.
pub fn render_text_value(i: usize) -> (s: String)
    ensures
        s@ == text_value(i as nat),
{
    let mut s = String::from_str("str_");
    proof {
        reveal_strlit("str_");
        assert(s@ =~= text_prefix());
    }
    let digits = format_usize(i);
    s.append(digits.as_str());
    s
}

/// Distinct row indices synthesize distinct text values.
pub proof fn lemma_text_value_injective(a: nat, b: nat)
    requires
        text_value(a) == text_value(b),
    ensures
        a == b,
{
    let x = dec_digits(a);
    let y = dec_digits(b);
    assert(text_value(a).len() == 4 + x.len());
    assert(text_value(b).len() == 4 + y.len());
    assert forall|k: int| 0 <= k < x.len() implies x[k] == y[k] by {
        assert(text_value(a)[4 + k] == x[k]);
        assert(text_value(b)[4 + k] == y[k]);
    }
    assert(x =~= y);
    lemma_dec_digits_injective(a, b);
}

} // verus!
