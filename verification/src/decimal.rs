//! Decimal and money rendering of integers.

use vstd::prelude::*;

verus! {

/// The ASCII digit for `d` (`0 <= d < 10`).
pub open spec fn digit_char(d: int) -> char {
    (48 + d) as char
}

/// Decimal digits of a natural number, most significant first, no padding.
pub open spec fn dec_nat(n: nat) -> Seq<char>
    decreases n,
{
    if n < 10 {
        seq![digit_char(n as int)]
    } else {
        dec_nat(n / 10) + seq![digit_char((n % 10) as int)]
    }
}

/// Decimal rendering of an integer, with a leading `-` when negative.
pub open spec fn dec_int(v: int) -> Seq<char> {
    if v < 0 {
        seq!['-'] + dec_nat((-v) as nat)
    } else {
        dec_nat(v as nat)
    }
}

/// Exactly three digits of `r` (`0 <= r < 1000`), zero padded.
pub open spec fn three_digits(r: nat) -> Seq<char> {
    seq![digit_char((r / 100) as int), digit_char(((r / 10) % 10) as int), digit_char((r % 10) as int)]
}

/// Decimal digits of `n` grouped by thousands with `,`.
pub open spec fn grouped(n: nat) -> Seq<char>
    decreases n,
{
    if n < 1000 {
        dec_nat(n)
    } else {
        grouped(n / 1000) + seq![','] + three_digits(n % 1000)
    }
}

/// Money rendering: `$` and thousands separators, `-$` for negatives.
pub open spec fn money_spec(v: int) -> Seq<char> {
    if v < 0 {
        seq!['-', '$'] + grouped((-v) as nat)
    } else {
        seq!['$'] + grouped(v as nat)
    }
}

/// Everything but the thousands separators of a rendering.
pub open spec fn without_separators(s: Seq<char>) -> Seq<char> {
    s.filter(|c: char| c != ',')
}

/// A rendering with no separator in it is left as it is.
proof fn lemma_no_separator_kept(s: Seq<char>)
    requires
        forall|i: int| 0 <= i < s.len() ==> s[i] != ',',
    ensures
        without_separators(s) == s,
    decreases s.len(),
{
    if s.len() > 0 {
        lemma_no_separator_kept(s.drop_last());
        s.drop_last().lemma_filter_push(s.last(), |c: char| c != ',');
        assert(s.drop_last().push(s.last()) =~= s);
    } else {
        reveal(Seq::filter);
    }
}

/// A digit is never a separator.
proof fn lemma_digit_not_separator(d: int)
    requires
        0 <= d < 10,
    ensures
        digit_char(d) != ',',
        digit_char(d) != '-',
{
}

/// The plain decimal digits hold no separator.
proof fn lemma_dec_nat_digits(n: nat)
    ensures
        forall|i: int| 0 <= i < dec_nat(n).len() ==> dec_nat(n)[i] != ',',
        dec_nat(n).len() >= 1,
    decreases n,
{
    if n < 10 {
        lemma_digit_not_separator(n as int);
    } else {
        lemma_dec_nat_digits(n / 10);
        lemma_digit_not_separator((n % 10) as int);
    }
}

/// Below a thousand there are at most three digits.
proof fn lemma_dec_nat_short(n: nat)
    ensures
        n < 10 ==> dec_nat(n).len() == 1,
        n < 100 ==> dec_nat(n).len() <= 2,
        n < 1000 ==> dec_nat(n).len() <= 3,
    decreases n,
{
    if n >= 10 {
        lemma_dec_nat_short(n / 10);
    }
}

/// Three padded digits hold no separator.
proof fn lemma_three_digits_digits(r: nat)
    requires
        r < 1000,
    ensures
        forall|i: int| 0 <= i < three_digits(r).len() ==> three_digits(r)[i] != ',',
        three_digits(r).len() == 3,
{
    lemma_digit_not_separator((r / 100) as int);
    lemma_digit_not_separator(((r / 10) % 10) as int);
    lemma_digit_not_separator((r % 10) as int);
}

/// From a thousand on, the digits are those of the thousands followed by
/// the last three digits, zero padded.
proof fn lemma_dec_nat_thousands(n: nat)
    requires
        n >= 1000,
    ensures
        dec_nat(n) == dec_nat(n / 1000) + three_digits(n % 1000),
{
    let a = n / 10;
    let b = n / 100;
    let c = n / 1000;
    let r = n % 1000;
    assert(a / 10 == b && b / 10 == c && a >= 10 && b >= 10) by (nonlinear_arith)
        requires
            n >= 1000,
            a == n / 10,
            b == n / 100,
            c == n / 1000,
    ;
    assert(r / 100 == b % 10 && (r / 10) % 10 == a % 10 && r % 10 == n % 10) by (nonlinear_arith)
        requires
            a == n / 10,
            b == n / 100,
            r == n % 1000,
            n >= 0,
    ;
    assert(dec_nat(n) == dec_nat(a) + seq![digit_char((n % 10) as int)]);
    assert(dec_nat(a) == dec_nat(b) + seq![digit_char((a % 10) as int)]);
    assert(dec_nat(b) == dec_nat(c) + seq![digit_char((b % 10) as int)]);
    assert(dec_nat(n) =~= dec_nat(n / 1000) + three_digits(n % 1000));
}

/// Grouping only inserts separators: taking the `,` out of a grouped
/// rendering gives back the plain decimal digits.
pub proof fn law_grouping_keeps_the_digits(n: nat)
    ensures
        without_separators(grouped(n)) == dec_nat(n),
    decreases n,
{
    lemma_dec_nat_digits(n);
    if n < 1000 {
        lemma_no_separator_kept(dec_nat(n));
    } else {
        let head = grouped(n / 1000);
        let tail = three_digits(n % 1000);
        law_grouping_keeps_the_digits(n / 1000);
        lemma_three_digits_digits(n % 1000);
        lemma_no_separator_kept(tail);
        Seq::filter_distributes_over_add(head + seq![','], tail, |c: char| c != ',');
        Seq::filter_distributes_over_add(head, seq![','], |c: char| c != ',');
        reveal_with_fuel(Seq::filter, 2);
        assert(seq![','].filter(|c: char| c != ',') =~= Seq::<char>::empty());
        lemma_dec_nat_thousands(n);
        assert(without_separators(grouped(n)) =~= dec_nat(n));
    }
}

/// Separators stand exactly at every fourth place counted from the right
/// end of a grouped rendering, so each separator is followed by a group of
/// three digits.
pub proof fn law_separators_every_three_digits(n: nat)
    ensures
        forall|i: int|
            0 <= i < grouped(n).len() ==> (#[trigger] grouped(n)[i] == ',' <==> (grouped(n).len() - 1
                - i) % 4 == 3),
        grouped(n).len() >= 1,
    decreases n,
{
    lemma_dec_nat_digits(n);
    lemma_dec_nat_short(n);
    if n >= 1000 {
        law_separators_every_three_digits(n / 1000);
        lemma_three_digits_digits(n % 1000);
        let head = grouped(n / 1000);
        let g = grouped(n);
        assert forall|i: int| 0 <= i < g.len() implies (#[trigger] g[i] == ',' <==> (g.len() - 1 - i)
            % 4 == 3) by {
            if i < head.len() {
                assert(g[i] == head[i]);
                assert((g.len() - 1 - i) == (head.len() - 1 - i) + 4);
            } else if i == head.len() {
                assert(g[i] == ',');
            } else {
                assert(g[i] == three_digits(n % 1000)[i - head.len() - 1]);
            }
        }
    }
}

/// A money rendering is never empty and ends with a digit.
pub proof fn lemma_money_ends_with_digit(v: int)
    ensures
        money_spec(v).len() >= 2,
        48 <= money_spec(v).last() as int <= 57,
{
    let n: nat = if v < 0 { (-v) as nat } else { v as nat };
    lemma_grouped_ends_with_digit(n);
}

/// A grouped rendering is never empty and ends with a digit.
proof fn lemma_grouped_ends_with_digit(n: nat)
    ensures
        grouped(n).len() >= 1,
        48 <= grouped(n).last() as int <= 57,
    decreases n,
{
    if n < 1000 {
        lemma_dec_nat_digits(n);
        lemma_dec_nat_ends_with_digit(n);
    } else {
        lemma_grouped_ends_with_digit(n / 1000);
        let r = n % 1000;
        assert(grouped(n).last() == digit_char((r % 10) as int));
    }
}

/// The plain decimal digits end with a digit.
proof fn lemma_dec_nat_ends_with_digit(n: nat)
    ensures
        dec_nat(n).len() >= 1,
        48 <= dec_nat(n).last() as int <= 57,
    decreases n,
{
    if n >= 10 {
        lemma_dec_nat_ends_with_digit(n / 10);
    }
}

/// Negative money is the rendering of its magnitude with a `-` in front.
pub proof fn law_negative_money_is_signed(a: int)
    requires
        a > 0,
    ensures
        money_spec(-a) == seq!['-'] + money_spec(a),
{
    assert(money_spec(-a) =~= seq!['-'] + money_spec(a));
}

pub fn digit_str(d: u64) -> (s: &'static str)
    requires
        d < 10,
    ensures
        s@ == seq![digit_char(d as int)],
{
    proof {
        reveal_strlit("0");
        reveal_strlit("1");
        reveal_strlit("2");
        reveal_strlit("3");
        reveal_strlit("4");
        reveal_strlit("5");
        reveal_strlit("6");
        reveal_strlit("7");
        reveal_strlit("8");
        reveal_strlit("9");
    }
    let s = match d {
        0 => "0",
        1 => "1",
        2 => "2",
        3 => "3",
        4 => "4",
        5 => "5",
        6 => "6",
        7 => "7",
        8 => "8",
        _ => "9",
    };
    assert(s@ =~= seq![digit_char(d as int)]);
    s
}

/// Appends the decimal digits of `n` to `s`.
pub fn push_dec(s: String, n: u64) -> (r: String)
    ensures
        r@ == s@ + dec_nat(n as nat),
    decreases n,
{
    let mut s = s;
    if n >= 10 {
        s = push_dec(s, n / 10);
    }
    let r = s.concat(digit_str(n % 10));
    proof {
        if n >= 10 {
            assert(dec_nat(n as nat) == dec_nat((n / 10) as nat) + seq![digit_char((n % 10) as int)]);
        }
    }
    r
}


/// The magnitude of an `i64` as a `u64` (defined for every value).
pub fn magnitude(v: i64) -> (m: u64)
    ensures
        m as int == if v < 0 { -v } else { v as int },
{
    if v >= 0 {
        v as u64
    } else if v == i64::MIN {
        9_223_372_036_854_775_808u64
    } else {
        (-v) as u64
    }
}

/// Decimal rendering of a signed integer (what `to_string` gives an `i64`).
pub fn fmt_i64(v: i64) -> (r: String)
    ensures
        r@ == dec_int(v as int),
{
    let m = magnitude(v);
    if v < 0 {
        let s = String::from_str("-");
        proof {
            reveal_strlit("-");
        }
        let r = push_dec(s, m);
        assert(r@ =~= dec_int(v as int));
        r
    } else {
        push_dec(String::new(), m)
    }
}

/// Appends exactly three zero-padded digits of `r`.
fn push_three(s: String, r: u64) -> (o: String)
    requires
        r < 1000,
    ensures
        o@ == s@ + three_digits(r as nat),
{
    let a = s.concat(digit_str(r / 100));
    let b = a.concat(digit_str((r / 10) % 10));
    let c = b.concat(digit_str(r % 10));
    assert(c@ =~= s@ + three_digits(r as nat));
    c
}

/// Appends the digits of `n` grouped by thousands.
fn push_grouped(s: String, n: u64) -> (o: String)
    ensures
        o@ == s@ + grouped(n as nat),
    decreases n,
{
    if n < 1000 {
        push_dec(s, n)
    } else {
        let a = push_grouped(s, n / 1000);
        proof {
            reveal_strlit(",");
        }
        let b = a.concat(",");
        let c = push_three(b, n % 1000);
        assert(c@ =~= s@ + grouped(n as nat));
        c
    }
}

/// Renders an amount of chips as money: `$` followed by the digits grouped
/// by thousands with `,`, and `-$` in front of negative amounts
/// (`1000` gives `$1,000`, `-50` gives `-$50`).
pub fn fmt_money(amount: i64) -> (r: String)
    requires
        amount > i64::MIN,
    ensures
        r@ == money_spec(amount as int),
{
    let m = magnitude(amount);
    proof {
        reveal_strlit("-$");
        reveal_strlit("$");
    }
    if amount < 0 {
        let r = push_grouped(String::from_str("-$"), m);
        assert(r@ =~= money_spec(amount as int));
        r
    } else {
        let r = push_grouped(String::from_str("$"), m);
        assert(r@ =~= money_spec(amount as int));
        r
    }
}

} // verus!
