use vstd::prelude::*;
use vstd::string::StringExecFns;
use crate::headers::header_value_ok;
use crate::headers::valid_header_char;

verus! {

/// The decimal digit character for `d` (meaningful for `d < 10`).
pub open spec fn dec_digit(d: u8) -> char {
    if d == 0 {
        '0'
    } else if d == 1 {
        '1'
    } else if d == 2 {
        '2'
    } else if d == 3 {
        '3'
    } else if d == 4 {
        '4'
    } else if d == 5 {
        '5'
    } else if d == 6 {
        '6'
    } else if d == 7 {
        '7'
    } else if d == 8 {
        '8'
    } else {
        '9'
    }
}

/// The decimal representation of `n`: digit characters without a leading
/// zero (a single '0' for zero itself).
pub open spec fn dec_rep(n: u8) -> Seq<char>
    decreases n,
{
    if n < 10 {
        seq![dec_digit(n)]
    } else {
        dec_rep(n / 10) + seq![dec_digit(n % 10)]
    }
}

/// The one-character string slice for the digit `d`.
fn digit_str(d: u8) -> (r: &'static str)
    requires
        d < 10,
    ensures
        r@ =~= seq![dec_digit(d)],
{
    proof {
        reveal_strlit("0");
        reveal_strlit("1");
        reveal_strlit("2");
        reveal_strlit("3");
        reveal_strlit("4");
        reveal_strlit("5");
        reveal_strlit("6");
        reveal_strlit("7");
        reveal_strlit("8");
        reveal_strlit("9");
    }
    if d == 0 {
        "0"
    } else if d == 1 {
        "1"
    } else if d == 2 {
        "2"
    } else if d == 3 {
        "3"
    } else if d == 4 {
        "4"
    } else if d == 5 {
        "5"
    } else if d == 6 {
        "6"
    } else if d == 7 {
        "7"
    } else if d == 8 {
        "8"
    } else {
        "9"
    }
}

/// Renders `n` in decimal, exactly as the standard formatter prints an
/// unsigned integer.
pub fn u8_to_dec(n: u8) -> (r: String)
    ensures
        r@ == dec_rep(n),
    decreases n,
{
    if n < 10 {
        let mut s = String::new();
        s.append(digit_str(n));
        proof {
            assert(s@ =~= dec_rep(n));
        }
        s
    } else {
        let mut s = u8_to_dec(n / 10);
        s.append(digit_str(n % 10));
        proof {
            assert(s@ =~= dec_rep(n));
        }
        s
    }
}

/// Every character of a decimal representation is a digit, and a digit is
/// always acceptable in an HTTP header value.
pub proof fn lemma_dec_rep_header_ok(n: u8)
    ensures
        header_value_ok(dec_rep(n)),
    decreases n,
{
    assert forall|d: u8| valid_header_char(dec_digit(d)) by {
        assert(('0' as u32) == 48);
        assert(('9' as u32) == 57);
    }
    if n < 10 {
        assert(header_value_ok(dec_rep(n)));
    } else {
        lemma_dec_rep_header_ok(n / 10);
        assert forall|i: int| 0 <= i < dec_rep(n).len() implies valid_header_char(
            dec_rep(n)[i],
        ) by {
            if i < dec_rep(n / 10).len() {
                assert(dec_rep(n)[i] == dec_rep(n / 10)[i]);
            } else {
                assert(dec_rep(n)[i] == dec_digit(n % 10));
            }
        }
    }
}

} // verus!
