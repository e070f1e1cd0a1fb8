//! Decimal text: whole numbers, signed numbers and fractions cut to two places.

use vstd::prelude::*;

verus! {

/// The character that stands for the decimal digit `d`: `'0'` for 0, and
/// so on to `'9'` for 9.
pub open spec fn digit_char(d: int) -> char
    recommends
        0 <= d <= 9,
{
    ('0' as int + d) as char
}

/// The number that a decimal numeral stands for.
pub open spec fn numeral_value(numeral: Seq<char>) -> int
    decreases numeral.len(),
{
    if numeral.len() == 0 {
        0
    } else {
        10 * numeral_value(numeral.drop_last()) + (numeral.last() as int - '0' as int)
    }
}

/// The decimal numeral of `n`, without leading zeros.
pub open spec fn decimal(n: nat) -> Seq<char>
    decreases n,
{
    if n < 10 {
        seq![digit_char(n as int)]
    } else {
        decimal(n / 10).push(digit_char((n % 10) as int))
    }
}

/// The decimal numeral of `n`, with a minus sign in front of a negative one.
pub open spec fn signed_decimal(n: int) -> Seq<char> {
    if n < 0 {
        seq!['-'] + decimal((-n) as nat)
    } else {
        decimal(n as nat)
    }
}

/// The quotient `n / d` in hundredths, rounded to the nearest hundredth;
/// a quotient that lies exactly between two hundredths goes to the even one.
pub open spec fn rounded_hundredths(n: nat, d: nat) -> nat
    recommends
        d > 0,
{
    let q = (100 * n) / d;
    let r = (100 * n) % d;
    if 2 * r > d || (2 * r == d && q % 2 == 1) {
        q + 1
    } else {
        q
    }
}

/// A number of hundredths written with two decimal places: `1234` is `12.34`.
pub open spec fn two_places(h: nat) -> Seq<char> {
    decimal(h / 100).push('.').push(digit_char(((h / 10) % 10) as int)).push(
        digit_char((h % 10) as int),
    )
}

/// The quotient `n / d` written with two decimal places, behind a minus sign
/// where `negative` is set.
pub open spec fn fixed_two(negative: bool, n: nat, d: nat) -> Seq<char>
    recommends
        d > 0,
{
    let digits = two_places(rounded_hundredths(n, d));
    if negative {
        seq!['-'] + digits
    } else {
        digits
    }
}

/// A decimal numeral is made of digits, starts with a zero only where it
/// is the numeral of zero, and stands for its number.
pub proof fn lemma_decimal_reads_back(n: nat)
    ensures
        decimal(n).len() >= 1,
        forall|i: int| 0 <= i < decimal(n).len() ==> '0' <= #[trigger] decimal(n)[i] <= '9',
        decimal(n)[0] == '0' <==> n == 0,
        numeral_value(decimal(n)) == n,
    decreases n,
{
    if n < 10 {
        assert(decimal(n).drop_last() =~= Seq::<char>::empty());
        assert(numeral_value(decimal(n).drop_last()) == 0);
    } else {
        lemma_decimal_reads_back(n / 10);
        assert(decimal(n).drop_last() =~= decimal(n / 10));
    }
}

/// Rounding to hundredths goes to a nearest hundredth: the rounded value
/// is off by half a hundredth at most, and where it is off by exactly
/// that much it is even.
pub proof fn lemma_rounded_is_nearest(n: nat, d: nat)
    requires
        d > 0,
    ensures
        ({
            let h = rounded_hundredths(n, d);
            let off = 100 * n - h * d;
            &&& -d <= 2 * off <= d
            &&& (2 * off == d || 2 * off == -d) ==> h % 2 == 0
        }),
{
    let q = (100 * n) / d;
    let r = (100 * n) % d;
    assert(100 * n == q * d + r && 0 <= r < d) by (nonlinear_arith)
        requires
            d > 0,
            q == (100 * n) / d,
            r == (100 * n) % d,
    ;
    assert((q + 1) * d == q * d + d) by (nonlinear_arith);
}

/// The one-character text of a decimal digit.
fn digit_text(d: u128) -> (t: &'static str)
    requires
        d <= 9,
    ensures
        t@ == seq![digit_char(d as int)],
{
    proof {
        reveal_strlit("0");
        reveal_strlit("1");
        reveal_strlit("2");
        reveal_strlit("3");
        reveal_strlit("4");
        reveal_strlit("5");
        reveal_strlit("6");
        reveal_strlit("7");
        reveal_strlit("8");
        reveal_strlit("9");
    }
    let t: &'static str = if d == 0 {
        "0"
    } else if d == 1 {
        "1"
    } else if d == 2 {
        "2"
    } else if d == 3 {
        "3"
    } else if d == 4 {
        "4"
    } else if d == 5 {
        "5"
    } else if d == 6 {
        "6"
    } else if d == 7 {
        "7"
    } else if d == 8 {
        "8"
    } else {
        "9"
    };
    assert(t@ =~= seq![digit_char(d as int)]);
    t
}

/// Appends the decimal numeral of `n` to `out`.
pub fn push_decimal(out: &mut String, n: u128)
    ensures
        final(out)@ == old(out)@ + decimal(n as nat),
    decreases n,
{
    if n >= 10 {
        push_decimal(out, n / 10);
    }
    out.append(digit_text(n % 10));
    assert(out@ =~= old(out)@ + decimal(n as nat));
}

/// The distance of `n` from zero.
pub fn magnitude(n: i64) -> (m: u64)
    ensures
        n >= 0 ==> m == n,
        n < 0 ==> m == -n,
{
    if n == i64::MIN {
        9223372036854775808u64
    } else if n < 0 {
        (-n) as u64
    } else {
        n as u64
    }
}

/// Appends the decimal numeral of `n` to `out`, with its sign where it is negative.
pub fn push_signed(out: &mut String, n: i64)
    ensures
        final(out)@ == old(out)@ + signed_decimal(n as int),
{
    if n < 0 {
        proof {
            reveal_strlit("-");
        }
        out.append("-");
        push_decimal(out, magnitude(n) as u128);
        assert(out@ =~= old(out)@ + signed_decimal(n as int));
    } else {
        push_decimal(out, n as u128);
    }
}

/// Rounds the quotient `n / d` to hundredths.
pub fn hundredths(n: u64, d: u64) -> (h: u128)
    requires
        d > 0,
    ensures
        h == rounded_hundredths(n as nat, d as nat),
{
    let scaled: u128 = 100 * (n as u128);
    let d: u128 = d as u128;
    let q: u128 = scaled / d;
    let r: u128 = scaled % d;
    // `2 * r > d` without the product, which need not fit
    if r > d - r || (r == d - r && q % 2 == 1) {
        q + 1
    } else {
        q
    }
}

/// Appends `n / d` with two decimal places to `out`.
pub fn push_fixed_two(out: &mut String, negative: bool, n: u64, d: u64)
    requires
        d > 0,
    ensures
        final(out)@ == old(out)@ + fixed_two(negative, n as nat, d as nat),
{
    if negative {
        proof {
            reveal_strlit("-");
        }
        out.append("-");
    }
    let h: u128 = hundredths(n, d);
    push_decimal(out, h / 100);
    proof {
        reveal_strlit(".");
    }
    out.append(".");
    out.append(digit_text((h / 10) % 10));
    out.append(digit_text(h % 10));
    assert(out@ =~= old(out)@ + fixed_two(negative, n as nat, d as nat));
}

/// Each text of `list` behind a copy of `lead`, one after the other.
pub open spec fn led(list: Seq<Seq<char>>, lead: Seq<char>) -> Seq<char>
    decreases list.len(),
{
    if list.len() == 0 {
        Seq::empty()
    } else {
        led(list.drop_last(), lead) + lead + list.last()
    }
}

/// The texts of `list` one after the other, with `between` between each
/// two of them.
pub open spec fn joined(list: Seq<Seq<char>>, between: Seq<char>) -> Seq<char> {
    if list.len() == 0 {
        Seq::empty()
    } else {
        list[0] + led(list.skip(1), between)
    }
}

/// Appends the texts of `list` to `out`, with `between` between each two
/// of them.
pub fn push_joined(out: &mut String, list: &Vec<String>, between: &str)
    ensures
        final(out)@ == old(out)@ + joined(list@.map_values(|text: String| text@), between@),
{
    let ghost texts = list@.map_values(|text: String| text@);
    if list.len() == 0 {
        assert(out@ =~= old(out)@ + Seq::<char>::empty());
        return ;
    }
    out.append(list[0].as_str());
    let mut i: usize = 1;
    assert(texts.skip(1).take(0) =~= Seq::<Seq<char>>::empty());
    while i < list.len()
        invariant
            1 <= i <= list.len(),
            texts == list@.map_values(|text: String| text@),
            out@ == old(out)@ + texts[0] + led(texts.skip(1).take(i - 1), between@),
        decreases list.len() - i,
    {
        proof {
            let done = texts.skip(1).take(i - 1);
            let more = texts.skip(1).take(i as int);
            assert(more.drop_last() =~= done);
            assert(more.last() == texts[i as int]);
        }
        out.append(between);
        out.append(list[i].as_str());
        i = i + 1;
    }
    assert(texts.skip(1).take(list.len() - 1) =~= texts.skip(1));
}

} // verus!
