//! Text helpers shared by the service: decimal rendering, comparison and
//! prefix tests on strings.

use vstd::prelude::*;
use vstd::string::StrSliceExecFns;
use vstd::string::StringExecFns;

verus! {

/// The character of a decimal digit.
pub open spec fn digit_char(d: nat) -> char {
    if d == 0 {
        '0'
    } else if d == 1 {
        '1'
    } else if d == 2 {
        '2'
    } else if d == 3 {
        '3'
    } else if d == 4 {
        '4'
    } else if d == 5 {
        '5'
    } else if d == 6 {
        '6'
    } else if d == 7 {
        '7'
    } else if d == 8 {
        '8'
    } else {
        '9'
    }
}

/// The usual decimal rendering of a natural number: no sign, no leading zeros.
pub open spec fn decimal_spec(n: nat) -> Seq<char>
    decreases n,
{
    if n < 10 {
        seq![digit_char(n)]
    } else {
        decimal_spec(n / 10).push(digit_char(n % 10))
    }
}

/// No decimal rendering holds an underscore, and none is empty.
pub proof fn lemma_decimal_digits(n: nat)
    ensures
        decimal_spec(n).len() >= 1,
        forall|i: int| 0 <= i < decimal_spec(n).len() ==> decimal_spec(n)[i] != '_',
    decreases n,
{
    if n >= 10 {
        lemma_decimal_digits(n / 10);
    }
}

/// Different digits have different characters.
pub proof fn lemma_digit_char_injective(x: nat, y: nat)
    requires
        x < 10,
        y < 10,
        digit_char(x) == digit_char(y),
    ensures
        x == y,
{
    assert(x == 0 || x == 1 || x == 2 || x == 3 || x == 4 || x == 5 || x == 6 || x == 7 || x == 8
        || x == 9);
    assert(y == 0 || y == 1 || y == 2 || y == 3 || y == 4 || y == 5 || y == 6 || y == 7 || y == 8
        || y == 9);
}

/// Different numbers have different decimal renderings.
pub proof fn law_decimal_is_injective(a: nat, b: nat)
    requires
        decimal_spec(a) == decimal_spec(b),
    ensures
        a == b,
    decreases a,
{
    if a < 10 && b < 10 {
        assert(decimal_spec(a) == seq![digit_char(a)]);
        assert(decimal_spec(b) == seq![digit_char(b)]);
        assert(decimal_spec(a)[0] == digit_char(a));
        assert(decimal_spec(b)[0] == digit_char(b));
        lemma_digit_char_injective(a, b);
    } else if a < 10 {
        lemma_decimal_digits(b / 10);
        assert(decimal_spec(b).len() >= 2);
    } else if b < 10 {
        lemma_decimal_digits(a / 10);
        assert(decimal_spec(a).len() >= 2);
    } else {
        let da = decimal_spec(a / 10);
        let db = decimal_spec(b / 10);
        assert(decimal_spec(a).drop_last() =~= da);
        assert(decimal_spec(b).drop_last() =~= db);
        law_decimal_is_injective(a / 10, b / 10);
        assert(decimal_spec(a) == da.push(digit_char(a % 10)));
        assert(decimal_spec(b) == db.push(digit_char(b % 10)));
        assert(decimal_spec(a).last() == digit_char(a % 10));
        assert(decimal_spec(b).last() == digit_char(b % 10));
        lemma_digit_char_injective(a % 10, b % 10);
        assert(a == 10 * (a / 10) + a % 10);
        assert(b == 10 * (b / 10) + b % 10);
    }
}

/// The number a string of decimal digits stands for, read left to right.
pub open spec fn digits_value(s: Seq<char>) -> nat
    decreases s.len(),
{
    if s.len() == 0 {
        0
    } else {
        digits_value(s.drop_last()) * 10 + ((s.last() as int - 48) as nat)
    }
}

proof fn lemma_digit_value(d: nat)
    requires
        d < 10,
    ensures
        digit_char(d) as int - 48 == d,
        '0' <= digit_char(d) <= '9',
        d != 0 ==> digit_char(d) != '0',
{
    assert(d == 0 || d == 1 || d == 2 || d == 3 || d == 4 || d == 5 || d == 6 || d == 7 || d == 8
        || d == 9);
}

/// The decimal rendering of a number is a non-empty string of ASCII digits,
/// without a leading zero unless it is "0", that reads back as the number.
pub proof fn law_decimal_reads_back(n: nat)
    ensures
        decimal_spec(n).len() >= 1,
        forall|i: int| 0 <= i < decimal_spec(n).len() ==> '0' <= #[trigger] decimal_spec(n)[i] <= '9',
        decimal_spec(n).len() > 1 ==> decimal_spec(n)[0] != '0',
        digits_value(decimal_spec(n)) == n,
    decreases n,
{
    let d = n % 10;
    lemma_digit_value(d);
    if n < 10 {
        let s = decimal_spec(n);
        assert(s =~= seq![digit_char(n)]);
        assert(s.drop_last() =~= Seq::<char>::empty());
        assert(digits_value(s.drop_last()) == 0);
        assert(s.last() == digit_char(n));
    } else {
        law_decimal_reads_back(n / 10);
        let s = decimal_spec(n);
        let h = decimal_spec(n / 10);
        assert(s =~= h.push(digit_char(d)));
        assert(s.drop_last() =~= h);
        assert forall|i: int| 0 <= i < s.len() implies '0' <= #[trigger] s[i] <= '9' by {
            if i < h.len() {
                assert(s[i] == h[i]);
            }
        }
        if h.len() == 1 {
            assert(h[0] != '0') by {
                if h[0] == '0' {
                    assert(digits_value(h) == digits_value(h.drop_last()) * 10 + 0);
                    assert(h.drop_last() =~= Seq::<char>::empty());
                }
            }
        }
        assert(s[0] == h[0]);
        assert(s.last() == digit_char(d));
        assert(digits_value(s) == digits_value(h) * 10 + d);
        assert(n == (n / 10) * 10 + d);
    }
}

fn digit_str(d: u64) -> (s: &'static str)
    requires
        d < 10,
    ensures
        s@ == seq![digit_char(d as nat)],
{
    match d {
        0 => {
            proof {
                reveal_strlit("0");
            }
            "0"
        },
        1 => {
            proof {
                reveal_strlit("1");
            }
            "1"
        },
        2 => {
            proof {
                reveal_strlit("2");
            }
            "2"
        },
        3 => {
            proof {
                reveal_strlit("3");
            }
            "3"
        },
        4 => {
            proof {
                reveal_strlit("4");
            }
            "4"
        },
        5 => {
            proof {
                reveal_strlit("5");
            }
            "5"
        },
        6 => {
            proof {
                reveal_strlit("6");
            }
            "6"
        },
        7 => {
            proof {
                reveal_strlit("7");
            }
            "7"
        },
        8 => {
            proof {
                reveal_strlit("8");
            }
            "8"
        },
        _ => {
            proof {
                reveal_strlit("9");
            }
            "9"
        },
    }
}

/// Renders `n` in decimal, as `to_string` does for unsigned integers.
pub fn decimal(n: u64) -> (s: String)
    ensures
        s@ == decimal_spec(n as nat),
    decreases n,
{
    if n < 10 {
        String::from_str(digit_str(n))
    } else {
        let mut s = decimal(n / 10);
        s.append(digit_str(n % 10));
        s
    }
}

/// Whether two strings hold the same characters.
pub fn same_text(a: &str, b: &str) -> (r: bool)
    ensures
        r == (a@ == b@),
{
    let x: String = a.to_owned();
    let y: String = b.to_owned();
    x == y
}

/// Whether `s` begins with `prefix`.
pub fn has_prefix(s: &str, prefix: &str) -> (r: bool)
    ensures
        r == (prefix@.len() <= s@.len() && s@.subrange(0, prefix@.len() as int) == prefix@),
{
    let n = prefix.unicode_len();
    if s.unicode_len() < n {
        false
    } else {
        same_text(s.substring_char(0, n), prefix)
    }
}

/// Joins two strings.
pub fn join2(a: &str, b: &str) -> (s: String)
    ensures
        s@ == a@ + b@,
{
    let mut s = String::from_str(a);
    s.append(b);
    s
}

} // verus!
