//! Verified text building blocks: decimal representations of integers,
//! fixed-width padding, and the ten-column centering the strip titles use.

use vstd::prelude::*;
use vstd::string::StringExecFns;
use vstd::utf8::is_ascii_chars;

verus! {

broadcast use vstd::slice::group_slice_axioms;

/// The decimal digit character for a value below ten.
pub open spec fn dec_digit(n: nat) -> char {
    if n == 0 {
        '0'
    } else if n == 1 {
        '1'
    } else if n == 2 {
        '2'
    } else if n == 3 {
        '3'
    } else if n == 4 {
        '4'
    } else if n == 5 {
        '5'
    } else if n == 6 {
        '6'
    } else if n == 7 {
        '7'
    } else if n == 8 {
        '8'
    } else {
        '9'
    }
}

/// The decimal representation of a number, most significant digit first,
/// without leading zeros (zero itself is "0").
pub open spec fn dec_rep(n: nat) -> Seq<char>
    decreases n,
{
    if n < 10 {
        seq![dec_digit(n)]
    } else {
        dec_rep(n / 10) + seq![dec_digit(n % 10)]
    }
}

fn digit_string(d: u64) -> (r: String)
    requires
        d < 10,
    ensures
        r@ == seq![dec_digit(d as nat)],
{
    let r: String = if d == 0 {
        String::from_str("0")
    } else if d == 1 {
        String::from_str("1")
    } else if d == 2 {
        String::from_str("2")
    } else if d == 3 {
        String::from_str("3")
    } else if d == 4 {
        String::from_str("4")
    } else if d == 5 {
        String::from_str("5")
    } else if d == 6 {
        String::from_str("6")
    } else if d == 7 {
        String::from_str("7")
    } else if d == 8 {
        String::from_str("8")
    } else {
        String::from_str("9")
    };
    proof {
        reveal_strlit("0");
        reveal_strlit("1");
        reveal_strlit("2");
        reveal_strlit("3");
        reveal_strlit("4");
        reveal_strlit("5");
        reveal_strlit("6");
        reveal_strlit("7");
        reveal_strlit("8");
        reveal_strlit("9");
        assert(r@ =~= seq![dec_digit(d as nat)]);
    }
    r
}

/// The decimal text of a 64-bit number.
pub fn u64_to_dec(n: u64) -> (r: String)
    ensures
        r@ == dec_rep(n as nat),
    decreases n,
{
    if n < 10 {
        digit_string(n)
    } else {
        proof {
            vstd::arithmetic::div_mod::lemma_div_is_strictly_smaller(n as int, 10);
        }
        let mut s = u64_to_dec(n / 10);
        let d = digit_string(n % 10);
        s.append(d.as_str());
        proof {
            assert(s@ =~= dec_rep(n as nat));
        }
        s
    }
}

/// A run of space characters.
pub open spec fn spaces(n: nat) -> Seq<char> {
    Seq::new(n, |i: int| ' ')
}

fn spaces_string(n: usize) -> (r: String)
    requires
        n <= 10,
    ensures
        r@ == spaces(n as nat),
{
    let r: String = if n == 0 {
        String::from_str("")
    } else if n == 1 {
        String::from_str(" ")
    } else if n == 2 {
        String::from_str("  ")
    } else if n == 3 {
        String::from_str("   ")
    } else if n == 4 {
        String::from_str("    ")
    } else if n == 5 {
        String::from_str("     ")
    } else if n == 6 {
        String::from_str("      ")
    } else if n == 7 {
        String::from_str("       ")
    } else if n == 8 {
        String::from_str("        ")
    } else if n == 9 {
        String::from_str("         ")
    } else {
        String::from_str("          ")
    };
    proof {
        reveal_strlit("");
        reveal_strlit(" ");
        reveal_strlit("  ");
        reveal_strlit("   ");
        reveal_strlit("    ");
        reveal_strlit("     ");
        reveal_strlit("      ");
        reveal_strlit("       ");
        reveal_strlit("        ");
        reveal_strlit("         ");
        reveal_strlit("          ");
        assert(r@ =~= spaces(n as nat));
    }
    r
}

/// Text centered in a ten-column field, extra padding going to the right;
/// text of ten or more columns is left as it is.
pub open spec fn center10(s: Seq<char>) -> Seq<char> {
    if s.len() >= 10 {
        s
    } else {
        spaces((((10 - s.len()) / 2) as nat)) + s + spaces(
            (((10 - s.len()) - (10 - s.len()) / 2) as nat),
        )
    }
}

/// Centers an ASCII label in a ten-column field.
pub fn center_in_10(s: String) -> (r: String)
    requires
        is_ascii_chars(s@),
    ensures
        r@ == center10(s@),
{
    let st: &str = s.as_str();
    let bytes: &[u8] = st.as_bytes();
    proof {
        vstd::string::is_ascii_spec_bytes(st);
    }
    let len: usize = bytes.len();
    if len >= 10 {
        s
    } else {
        let diff: usize = 10 - len;
        let left: usize = diff / 2;
        let right: usize = diff - left;
        let mut r = spaces_string(left);
        r.append(s.as_str());
        let tail = spaces_string(right);
        r.append(tail.as_str());
        proof {
            assert(r@ =~= center10(s@));
        }
        r
    }
}

/// A whole number right-aligned in a three-column field, as the selector's
/// percent figure is drawn.
pub open spec fn right3(n: nat) -> Seq<char> {
    if n < 10 {
        spaces(2) + dec_rep(n)
    } else if n < 100 {
        spaces(1) + dec_rep(n)
    } else {
        dec_rep(n)
    }
}

/// Decimal text of `n`, right-aligned in three columns.
pub fn u64_right3(n: u64) -> (r: String)
    ensures
        r@ == right3(n as nat),
{
    let digits = u64_to_dec(n);
    let pad: usize = if n < 10 {
        2
    } else if n < 100 {
        1
    } else {
        0
    };
    let mut r = spaces_string(pad);
    r.append(digits.as_str());
    proof {
        assert(r@ =~= right3(n as nat));
    }
    r
}

/// A tenths-of-a-percent figure written with one decimal place ("5.0").
pub open spec fn tenths_rep(t: nat) -> Seq<char> {
    dec_rep(t / 10) + seq!['.', dec_digit(t % 10)]
}

/// Writes a tenths-of-a-percent figure with one decimal place.
pub fn tenths_to_dec(t: u64) -> (r: String)
    ensures
        r@ == tenths_rep(t as nat),
{
    let mut r = u64_to_dec(t / 10);
    r.append(".");
    let d = digit_string(t % 10);
    r.append(d.as_str());
    proof {
        reveal_strlit(".");
        assert(r@ =~= tenths_rep(t as nat));
    }
    r
}

} // verus!
