//! Decimal rendering of unsigned integers, as `Display` prints them.

use vstd::prelude::*;
use vstd::string::StringExecFns;

verus! {

/// The ASCII digit of value `d` (for `d < 10`).
pub open spec fn digit_char(d: nat) -> char {
    ('0' as nat + d) as char
}

/// The decimal digits of `n`, most significant first, without leading zeros.
pub open spec fn decimal(n: nat) -> Seq<char>
    decreases n,
{
    if n < 10 {
        seq![digit_char(n)]
    } else {
        decimal(n / 10).push(digit_char(n % 10))
    }
}

/// The number that a string of ASCII decimal digits denotes, most significant
/// digit first.
pub open spec fn digits_value(s: Seq<char>) -> int
    decreases s.len(),
{
    if s.len() == 0 {
        0
    } else {
        digits_value(s.drop_last()) * 10 + (s.last() as int - 48)
    }
}

/// The decimal rendering of `n` is made of ASCII digits, reads back as `n`,
/// and has no leading zero.
pub proof fn lemma_decimal_reads_back(n: nat)
    ensures
        decimal(n).len() > 0,
        forall|i: int| 0 <= i < decimal(n).len() ==> 48 <= #[trigger] (decimal(n)[i] as int) <= 57,
        digits_value(decimal(n)) == n,
        decimal(n)[0] == '0' ==> n == 0,
    decreases n,
{
    if n < 10 {
        let c = digit_char(n);
        assert(c as int == 48 + n);
        assert(decimal(n) == seq![c]);
        assert(seq![c].drop_last() =~= Seq::<char>::empty());
        assert(digits_value(seq![c]) == digits_value(Seq::<char>::empty()) * 10 + (c as int - 48));
        assert(n == 0 ==> c == '0');
        assert(c == '0' ==> n == 0);
    } else {
        lemma_decimal_reads_back(n / 10);
        let d = decimal(n / 10);
        let c = digit_char(n % 10);
        assert(c as int == 48 + n % 10);
        assert(decimal(n) == d.push(c));
        assert(d.push(c).drop_last() =~= d);
        assert(d.push(c)[0] == d[0]);
        assert forall|i: int| 0 <= i < d.push(c).len() implies 48 <= #[trigger] (d.push(c)[i] as int) <= 57 by {
            if i < d.len() {
                assert(d.push(c)[i] == d[i]);
            }
        }
        assert(n / 10 > 0);
    }
}

/// A one-character string holding the digit `d`.
fn digit_str(d: u32) -> (res: &'static str)
    requires
        d < 10,
    ensures
        res@ == seq![digit_char(d as nat)],
{
    proof {
        reveal_strlit("0");
        reveal_strlit("1");
        reveal_strlit("2");
        reveal_strlit("3");
        reveal_strlit("4");
        reveal_strlit("5");
        reveal_strlit("6");
        reveal_strlit("7");
        reveal_strlit("8");
        reveal_strlit("9");
    }
    match d {
        0 => "0",
        1 => "1",
        2 => "2",
        3 => "3",
        4 => "4",
        5 => "5",
        6 => "6",
        7 => "7",
        8 => "8",
        _ => "9",
    }
}

/// Renders `n` in decimal, as `format!("{}", n)` does.
pub fn decimal_string(n: u32) -> (res: String)
    ensures
        res@ == decimal(n as nat),
        digits_value(res@) == n,
    decreases n,
{
    proof {
        lemma_decimal_reads_back(n as nat);
    }
    if n < 10 {
        String::from_str(digit_str(n))
    } else {
        let mut s = decimal_string(n / 10);
        s.append(digit_str(n % 10));
        s
    }
}

} // verus!
