//! Decimal rendering of exit codes for the diagnostic message.

use vstd::prelude::*;

verus! {

/// The decimal digit character for `d`, which must lie in `0 ..= 9`.
pub open spec fn digit_char(d: int) -> char
    recommends
        0 <= d <= 9,
{
    if d == 0 {
        '0'
    } else if d == 1 {
        '1'
    } else if d == 2 {
        '2'
    } else if d == 3 {
        '3'
    } else if d == 4 {
        '4'
    } else if d == 5 {
        '5'
    } else if d == 6 {
        '6'
    } else if d == 7 {
        '7'
    } else if d == 8 {
        '8'
    } else {
        '9'
    }
}

/// The decimal digits of the non-negative number `n`, most significant first,
/// with no leading zeros (`0` itself renders as a single `'0'`).
pub open spec fn dec_digits(n: int) -> Seq<char>
    recommends
        n >= 0,
    decreases n,
{
    if n < 10 {
        seq![digit_char(n)]
    } else {
        dec_digits(n / 10).push(digit_char(n % 10))
    }
}

/// The decimal rendering of `n`, with a leading minus sign when negative.
pub open spec fn dec_str(n: int) -> Seq<char> {
    if n < 0 {
        seq!['-'] + dec_digits(-n)
    } else {
        dec_digits(n)
    }
}

/// The digit characters of `ds` read back to front: `ds` holds digits least
/// significant first, this is the number as written.
spec fn digit_chars_rev(ds: Seq<u64>) -> Seq<char> {
    Seq::new(ds.len(), |i: int| digit_char(ds[ds.len() - 1 - i] as int))
}

/// A one-character string holding the digit `d`.
fn digit_str(d: u64) -> (r: &'static str)
    requires
        d <= 9,
    ensures
        r@ =~= seq![digit_char(d as int)],
{
    let r: &'static str = if d == 0 {
        "0"
    } else if d == 1 {
        "1"
    } else if d == 2 {
        "2"
    } else if d == 3 {
        "3"
    } else if d == 4 {
        "4"
    } else if d == 5 {
        "5"
    } else if d == 6 {
        "6"
    } else if d == 7 {
        "7"
    } else if d == 8 {
        "8"
    } else {
        "9"
    };
    proof {
        reveal_strlit("0");
        reveal_strlit("1");
        reveal_strlit("2");
        reveal_strlit("3");
        reveal_strlit("4");
        reveal_strlit("5");
        reveal_strlit("6");
        reveal_strlit("7");
        reveal_strlit("8");
        reveal_strlit("9");
    }
    r
}

/// Render `n` in decimal.
pub fn format_i32(n: i32) -> (s: String)
    ensures
        s@ == dec_str(n as int),
{
    let mut s = <String as vstd::string::StringExecFns>::from_str("");
    proof {
        reveal_strlit("");
        assert(s@ =~= Seq::<char>::empty());
    }
    let mut m: u64 = if n < 0 {
        vstd::string::StringExecFns::append(&mut s, "-");
        proof {
            reveal_strlit("-");
            assert(s@ =~= seq!['-']);
        }
        (-(n as i64)) as u64
    } else {
        n as u64
    };
    let ghost value: int = m as int;
    let ghost sign: Seq<char> = if n < 0 {
        seq!['-']
    } else {
        Seq::empty()
    };
    assert(s@ == sign && dec_str(n as int) == sign + dec_digits(value));
    let mut digits: Vec<u64> = Vec::new();
    proof {
        assert(dec_digits(value) =~= dec_digits(m as int) + digit_chars_rev(digits@));
    }
    while m >= 10
        invariant
            forall|k: int| 0 <= k < digits@.len() ==> 0 <= #[trigger] digits@[k] <= 9,
            dec_digits(value) =~= dec_digits(m as int) + digit_chars_rev(digits@),
        decreases m,
    {
        let d = m % 10;
        let next = m / 10;
        proof {
            assert(dec_digits(m as int) == dec_digits(next as int).push(digit_char(d as int)));
            assert(digit_chars_rev(digits@.push(d)) =~= seq![digit_char(d as int)]
                + digit_chars_rev(digits@));
            assert(dec_digits(value) =~= dec_digits(next as int) + digit_chars_rev(
                digits@.push(d),
            ));
        }
        digits.push(d);
        m = next;
    }
    proof {
        assert(dec_digits(m as int) == seq![digit_char(m as int)]);
        assert(dec_digits(value) =~= digit_chars_rev(digits@.push(m)));
    }
    digits.push(m);
    assert(dec_digits(value) =~= digit_chars_rev(digits@));
    let mut j: usize = digits.len();
    proof {
        assert(digit_chars_rev(digits@).take(digits@.len() - j) =~= Seq::<char>::empty());
    }
    while j > 0
        invariant
            j <= digits@.len(),
            forall|k: int| 0 <= k < digits@.len() ==> 0 <= #[trigger] digits@[k] <= 9,
            s@ =~= sign + digit_chars_rev(digits@).take(digits@.len() - j),
            dec_str(n as int) == sign + dec_digits(value),
            dec_digits(value) =~= digit_chars_rev(digits@),
        decreases j,
    {
        j = j - 1;
        let piece = digit_str(digits[j]);
        vstd::string::StringExecFns::append(&mut s, piece);
        proof {
            assert(digit_chars_rev(digits@).take(digits@.len() - j) =~= digit_chars_rev(
                digits@,
            ).take(digits@.len() - (j + 1)).push(digit_char(digits@[j as int] as int)));
            assert(s@ =~= sign + digit_chars_rev(digits@).take(digits@.len() - j));
        }
    }
    proof {
        assert(digit_chars_rev(digits@).take(digits@.len() as int) =~= digit_chars_rev(digits@));
        assert(s@ =~= dec_str(n as int));
    }
    s
}

} // verus!
