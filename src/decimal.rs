//! Decimal text for unsigned integers: the form in which the token expiry
//! is kept in the credential store.

use vstd::prelude::*;
use vstd::string::*;

verus! {

pub open spec fn digit_chars() -> Seq<char> {
    seq!['0', '1', '2', '3', '4', '5', '6', '7', '8', '9']
}

pub open spec fn is_digit(c: char) -> bool {
    48 <= c as int <= 57
}

pub open spec fn all_digits(s: Seq<char>) -> bool {
    forall|i: int| 0 <= i < s.len() ==> is_digit(#[trigger] s[i])
}

/// The number that a run of decimal digits spells.
pub open spec fn digits_value(s: Seq<char>) -> int
    decreases s.len(),
{
    if s.len() == 0 {
        0
    } else {
        digits_value(s.drop_last()) * 10 + (s.last() as int - 48)
    }
}

/// The canonical decimal spelling of `v`: no sign, no leading zeros.
pub open spec fn decimal_of(v: nat) -> Seq<char>
    decreases v,
{
    if v < 10 {
        seq![digit_chars()[v as int]]
    } else {
        decimal_of(v / 10).push(digit_chars()[(v % 10) as int])
    }
}

/// The value of a non-empty run of decimal digits, when it fits a `u64`.
pub open spec fn parsed_digits(s: Seq<char>) -> Option<u64> {
    if s.len() > 0 && all_digits(s) && digits_value(s) <= u64::MAX {
        Some(digits_value(s) as u64)
    } else {
        None
    }
}

/// What reading `s` as a `u64` gives: one optional leading `+`, then a
/// non-empty run of decimal digits whose value fits.
pub open spec fn parsed_u64(s: Seq<char>) -> Option<u64> {
    if s.len() > 0 && s[0] == '+' {
        parsed_digits(s.drop_first())
    } else {
        parsed_digits(s)
    }
}

proof fn lemma_prefix_value_le(s: Seq<char>, i: int)
    requires
        all_digits(s),
        0 <= i <= s.len(),
    ensures
        0 <= digits_value(s.subrange(0, i)) <= digits_value(s),
    decreases s.len() - i,
{
    if i == s.len() {
        assert(s.subrange(0, i) =~= s);
        lemma_value_nonneg(s);
    } else {
        lemma_prefix_value_le(s, i + 1);
        assert(s.subrange(0, i + 1).drop_last() =~= s.subrange(0, i));
        lemma_value_nonneg(s.subrange(0, i));
    }
}

proof fn lemma_value_nonneg(s: Seq<char>)
    requires
        all_digits(s),
    ensures
        digits_value(s) >= 0,
    decreases s.len(),
{
    if s.len() > 0 {
        lemma_value_nonneg(s.drop_last());
    }
}

/// Reading back the decimal spelling of a number gives the number.
pub proof fn lemma_decimal_round_trip(v: u64)
    ensures
        parsed_u64(decimal_of(v as nat)) == Some(v),
{
    lemma_decimal_value(v as nat);
    assert(is_digit(decimal_of(v as nat)[0]));
}

proof fn lemma_decimal_value(v: nat)
    ensures
        decimal_of(v).len() > 0,
        all_digits(decimal_of(v)),
        digits_value(decimal_of(v)) == v,
    decreases v,
{
    lemma_digit_chars();
    let d = decimal_of(v);
    if v < 10 {
        assert(d.drop_last() =~= Seq::<char>::empty());
        assert(digits_value(d.drop_last()) == 0);
        assert(d.last() as int == 48 + v);
        assert(digits_value(d) == digits_value(d.drop_last()) * 10 + (d.last() as int - 48));
    } else {
        lemma_decimal_value(v / 10);
        assert(d.drop_last() =~= decimal_of(v / 10));
        assert(d.last() as int == 48 + (v % 10) as int);
        assert(digits_value(d) == digits_value(d.drop_last()) * 10 + (d.last() as int - 48));
        assert((v / 10) * 10 + v % 10 == v) by (nonlinear_arith);
        assert forall|i: int| 0 <= i < decimal_of(v).len() implies is_digit(#[trigger] decimal_of(v)[i]) by {
            if i < decimal_of(v).len() - 1 {
                assert(decimal_of(v)[i] == decimal_of(v / 10)[i]);
            }
        }
    }
}

proof fn lemma_digit_chars()
    ensures
        forall|k: int| 0 <= k < 10 ==> #[trigger] digit_chars()[k] as int == 48 + k,
{
    assert forall|k: int| 0 <= k < 10 implies #[trigger] digit_chars()[k] as int == 48 + k by {
        if k == 0 { } else if k == 1 { } else if k == 2 { } else if k == 3 { } else if k == 4 { }
        else if k == 5 { } else if k == 6 { } else if k == 7 { } else if k == 8 { } else { }
    }
}

/// The one-character text of digit `d`.
fn digit_text(d: u64) -> (r: &'static str)
    requires
        d < 10,
    ensures
        r@ == seq![digit_chars()[d as int]],
{
    let all = "0123456789";
    proof {
        reveal_strlit("0123456789");
        assert(all@ =~= digit_chars());
    }
    let r = all.substring_char(d as usize, d as usize + 1);
    assert(r@ =~= seq![digit_chars()[d as int]]);
    r
}

/// The decimal text of `v`.
pub fn decimal_text(v: u64) -> (r: String)
    ensures
        r@ == decimal_of(v as nat),
    decreases v,
{
    if v < 10 {
        String::from_str(digit_text(v))
    } else {
        let mut r = decimal_text(v / 10);
        r.append(digit_text(v % 10));
        r
    }
}

/// Read `s` as a `u64`, as `str::parse` does: an optional leading `+`,
/// then decimal digits.
pub fn parse_u64(s: &str) -> (r: Option<u64>)
    ensures
        r == parsed_u64(s@),
{
    let n = s.unicode_len();
    if n > 0 && s.get_char(0) == '+' {
        let rest = s.substring_char(1, n);
        assert(rest@ =~= s@.drop_first());
        parse_digits(rest)
    } else {
        parse_digits(s)
    }
}

/// Read a run of decimal digits as a `u64`.
fn parse_digits(s: &str) -> (r: Option<u64>)
    ensures
        r == parsed_digits(s@),
{
    let n = s.unicode_len();
    if n == 0 {
        return None;
    }
    let mut acc: u64 = 0;
    let mut i: usize = 0;
    while i < n
        invariant
            i <= n,
            n == s@.len(),
            all_digits(s@.subrange(0, i as int)),
            acc as int == digits_value(s@.subrange(0, i as int)),
        decreases n - i,
    {
        let c = s.get_char(i);
        let code = c as u32;
        assert(s@.subrange(0, i + 1).drop_last() =~= s@.subrange(0, i as int));
        if code < 48 || code > 57 {
            assert(!is_digit(s@[i as int]));
            return None;
        }
        let d = (code - 48) as u64;
        if acc > (u64::MAX - d) / 10 {
            proof {
                assert(all_digits(s@.subrange(0, i + 1)));
                assert(digits_value(s@.subrange(0, i + 1)) > u64::MAX) by (nonlinear_arith)
                    requires
                        acc > (u64::MAX - d) / 10,
                        digits_value(s@.subrange(0, i + 1)) == acc * 10 + d,
                        d <= 9,
                ;
                if all_digits(s@) {
                    lemma_prefix_value_le(s@, i + 1);
                }
            }
            return None;
        }
        acc = acc * 10 + d;
        i = i + 1;
    }
    assert(s@.subrange(0, n as int) =~= s@);
    Some(acc)
}

} // verus!
