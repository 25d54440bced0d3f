//! Small helpers on text: optional strings and the decimal spelling of an identifier.

use vstd::prelude::*;

verus! {

/// The characters of an optional string.
pub open spec fn opt_text(text: Option<String>) -> Option<Seq<char>> {
    match text {
        Some(s) => Some(s@),
        None => None,
    }
}

/// The characters of an optional string slice.
pub open spec fn opt_chars(text: Option<&str>) -> Option<Seq<char>> {
    match text {
        Some(s) => Some(s@),
        None => None,
    }
}

/// Borrows an optional string.
pub(crate) fn as_deref(text: &Option<String>) -> (r: Option<&str>)
    ensures
        opt_chars(r) == opt_text(*text),
{
    match text {
        Some(s) => Some(s.as_str()),
        None => None,
    }
}

/// Copies an optional string slice.
pub(crate) fn to_owned(text: Option<&str>) -> (r: Option<String>)
    ensures
        opt_text(r) == opt_chars(text),
{
    match text {
        Some(s) => Some(s.to_owned()),
        None => None,
    }
}

/// The decimal spelling of `n`: no sign, no separators, no leading zero.
pub open spec fn decimal(n: nat) -> Seq<char>
    decreases n,
{
    if n < 10 {
        seq!["0123456789"@[n as int]]
    } else {
        decimal(n / 10).push("0123456789"@[(n % 10) as int])
    }
}

/// The spelling of one decimal digit.
fn digit(d: u64) -> (r: &'static str)
    requires
        d < 10,
    ensures
        r@ == seq!["0123456789"@[d as int]],
{
    proof {
        reveal_strlit("0123456789");
        reveal_strlit("0");
        reveal_strlit("1");
        reveal_strlit("2");
        reveal_strlit("3");
        reveal_strlit("4");
        reveal_strlit("5");
        reveal_strlit("6");
        reveal_strlit("7");
        reveal_strlit("8");
        reveal_strlit("9");
    }
    match d {
        0 => "0",
        1 => "1",
        2 => "2",
        3 => "3",
        4 => "4",
        5 => "5",
        6 => "6",
        7 => "7",
        8 => "8",
        _ => "9",
    }
}

/// Spells `n` in decimal.
pub(crate) fn decimal_string(n: u64) -> (r: String)
    ensures
        r@ == decimal(n as nat),
    decreases n,
{
    if n < 10 {
        digit(n).to_owned()
    } else {
        let mut r = decimal_string(n / 10);
        r.append(digit(n % 10));
        assert(r@ =~= decimal((n / 10) as nat).push("0123456789"@[(n % 10) as int]));
        r
    }
}

/// Different numbers have different decimal spellings.
pub proof fn decimal_is_injective(a: nat, b: nat)
    requires
        decimal(a) == decimal(b),
    ensures
        a == b,
    decreases a,
{
    reveal_strlit("0123456789");
    let x = decimal(a);
    let y = decimal(b);
    assert(x.last() == y.last());
    if a < 10 && b < 10 {
    } else {
        decimal_is_not_empty(a / 10);
        decimal_is_not_empty(b / 10);
        assert(x.len() == y.len());
        assert(a >= 10 && b >= 10);
        assert(x.drop_last() =~= decimal(a / 10));
        assert(y.drop_last() =~= decimal(b / 10));
        decimal_is_injective(a / 10, b / 10);
    }
}

/// The number that a row of decimal digits stands for, most significant digit first.
pub open spec fn number(digits: Seq<char>) -> int
    decreases digits.len(),
{
    if digits.len() == 0 {
        0
    } else {
        number(digits.drop_last()) * 10 + (digits.last() as int - '0' as int)
    }
}

/// The decimal spelling of a number consists of digits, has no leading zero, and reads back as
/// that number.
pub proof fn decimal_reads_back(n: nat)
    ensures
        number(decimal(n)) == n,
        decimal(n).len() > 0,
        forall|i: int|
            0 <= i < decimal(n).len() ==> '0' as int <= (#[trigger] decimal(n)[i]) as int
                <= '9' as int,
        decimal(n).len() > 1 ==> decimal(n)[0] != '0',
        n > 0 ==> decimal(n)[0] != '0',
    decreases n,
{
    digits_in_order((n % 10) as int);
    let all = decimal(n);
    if n < 10 {
        assert(all.drop_last() =~= Seq::<char>::empty());
        assert(number(all.drop_last()) == 0);
    } else {
        let front = decimal(n / 10);
        decimal_reads_back(n / 10);
        assert(all.drop_last() =~= front);
        assert forall|i: int| 0 <= i < all.len() implies '0' as int <= (#[trigger] all[i]) as int
            <= '9' as int by {
            if i < front.len() {
                assert(all[i] == front[i]);
            }
        }
        assert(all[0] == front[0]);
    }
}

proof fn digits_in_order(d: int)
    requires
        0 <= d < 10,
    ensures
        "0123456789"@[d] as int == '0' as int + d,
{
    reveal_strlit("0123456789");
    assert(d == 0 || d == 1 || d == 2 || d == 3 || d == 4 || d == 5 || d == 6 || d == 7 || d == 8
        || d == 9);
}

proof fn decimal_is_not_empty(n: nat)
    ensures
        decimal(n).len() > 0,
{
}

} // verus!
