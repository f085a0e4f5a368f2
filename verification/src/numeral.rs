//! Base-ten rendering of part numbers.
//!
//! Part files are named `part-{n}.parquet`, so the library needs a verified
//! decimal rendering of `n` and the fact that distinct numbers render to
//! distinct strings (no two part files may collide on a name).

use vstd::prelude::*;
use vstd::string::*;

verus! {

/// The digit character for `d` (meaningful for `d < 10`).
pub open spec fn digit_char(d: nat) -> char {
    if d == 0 {
        '0'
    } else if d == 1 {
        '1'
    } else if d == 2 {
        '2'
    } else if d == 3 {
        '3'
    } else if d == 4 {
        '4'
    } else if d == 5 {
        '5'
    } else if d == 6 {
        '6'
    } else if d == 7 {
        '7'
    } else if d == 8 {
        '8'
    } else {
        '9'
    }
}

/// The usual base-ten rendering of `n`, most significant digit first,
/// without leading zeros (`0` renders as `"0"`).
pub open spec fn dec_digits(n: nat) -> Seq<char>
    decreases n,
{
    if n < 10 {
        seq![digit_char(n)]
    } else {
        dec_digits(n / 10).push(digit_char(n % 10))
    }
}

/// The one-character string for the decimal digit `d`.
fn digit_str(d: u64) -> (r: &'static str)
    requires
        d < 10,
    ensures
        r@ == seq![digit_char(d as nat)],
{
    let r: &'static str = if d == 0 {
        "0"
    } else if d == 1 {
        "1"
    } else if d == 2 {
        "2"
    } else if d == 3 {
        "3"
    } else if d == 4 {
        "4"
    } else if d == 5 {
        "5"
    } else if d == 6 {
        "6"
    } else if d == 7 {
        "7"
    } else if d == 8 {
        "8"
    } else {
        "9"
    };
    proof {
        reveal_strlit("0");
        reveal_strlit("1");
        reveal_strlit("2");
        reveal_strlit("3");
        reveal_strlit("4");
        reveal_strlit("5");
        reveal_strlit("6");
        reveal_strlit("7");
        reveal_strlit("8");
        reveal_strlit("9");
        assert(r@ =~= seq![digit_char(d as nat)]);
    }
    r
}

/// `s` followed by the decimal rendering of `n`.
fn push_dec(s: String, n: u64) -> (r: String)
    ensures
        r@ == s@ + dec_digits(n as nat),
    decreases n,
{
    if n < 10 {
        let r = s.concat(digit_str(n));
        proof {
            assert(r@ =~= s@ + dec_digits(n as nat));
        }
        r
    } else {
        let front = push_dec(s, n / 10);
        let r = front.concat(digit_str(n % 10));
        proof {
            assert(r@ =~= s@ + dec_digits(n as nat));
        }
        r
    }
}

/// The decimal rendering of `n` as an owned string.
pub fn u64_to_dec(n: u64) -> (r: String)
    ensures
        r@ == dec_digits(n as nat),
{
    let r = push_dec(String::new(), n);
    proof {
        assert(r@ =~= dec_digits(n as nat));
    }
    r
}

/// A rendering never is empty, and a number of two or more digits renders
/// to two or more characters.
pub proof fn lemma_dec_digits_len(n: nat)
    ensures
        dec_digits(n).len() >= 1,
        n >= 10 ==> dec_digits(n).len() >= 2,
    decreases n,
{
    if n >= 10 {
        lemma_dec_digits_len(n / 10);
    }
}

/// Distinct numbers render to distinct strings.
pub proof fn lemma_dec_digits_injective(m: nat, n: nat)
    requires
        dec_digits(m) == dec_digits(n),
    ensures
        m == n,
    decreases m,
{
    lemma_dec_digits_len(m);
    lemma_dec_digits_len(n);
    if m < 10 && n < 10 {
        assert(seq![digit_char(m)][0] == digit_char(m));
        assert(seq![digit_char(n)][0] == digit_char(n));
        assert(digit_char(m) == digit_char(n));
        assert(m == n);
    } else if m < 10 && n >= 10 {
        assert(dec_digits(m).len() == 1);
        assert(false);
    } else if m >= 10 && n < 10 {
        assert(dec_digits(n).len() == 1);
        assert(false);
    } else {
        let a = dec_digits(m / 10);
        let b = dec_digits(n / 10);
        assert(a.push(digit_char(m % 10)) == b.push(digit_char(n % 10)));
        assert(a.len() == b.len());
        assert(a =~= b) by {
            assert forall|i: int| 0 <= i < a.len() implies a[i] == b[i] by {
                assert(a[i] == a.push(digit_char(m % 10))[i]);
                assert(b[i] == b.push(digit_char(n % 10))[i]);
            }
        }
        assert(a.push(digit_char(m % 10)).last() == digit_char(m % 10));
        assert(b.push(digit_char(n % 10)).last() == digit_char(n % 10));
        assert(digit_char(m % 10) == digit_char(n % 10));
        assert(m % 10 == n % 10);
        lemma_dec_digits_injective(m / 10, n / 10);
        vstd::arithmetic::div_mod::lemma_fundamental_div_mod(m as int, 10);
        vstd::arithmetic::div_mod::lemma_fundamental_div_mod(n as int, 10);
    }
}

} // verus!
