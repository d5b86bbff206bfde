//! Verified text helpers: comparisons over string views and decimal
//! rendering of numbers, used by specifier handling and error formatting.

use vstd::prelude::*;
use vstd::string::*;

verus! {

/// Compare two string slices by content.
pub fn str_eq(a: &str, b: &str) -> (r: bool)
    ensures
        r == (a@ == b@),
{
    let n = a.unicode_len();
    if n != b.unicode_len() {
        return false;
    }
    let mut i: usize = 0;
    while i < n
        invariant
            n == a@.len(),
            n == b@.len(),
            i <= n,
            forall|j: int| 0 <= j < i ==> a@[j] == b@[j],
        decreases n - i,
    {
        if a.get_char(i) != b.get_char(i) {
            return false;
        }
        i = i + 1;
    }
    proof {
        assert(a@ =~= b@);
    }
    true
}

/// Does `s` start with `prefix`?
pub fn str_starts_with(s: &str, prefix: &str) -> (r: bool)
    ensures
        r == prefix@.is_prefix_of(s@),
{
    let pn = prefix.unicode_len();
    let sn = s.unicode_len();
    if pn > sn {
        return false;
    }
    let mut i: usize = 0;
    while i < pn
        invariant
            pn == prefix@.len(),
            sn == s@.len(),
            pn <= sn,
            i <= pn,
            forall|j: int| 0 <= j < i ==> prefix@[j] == s@[j],
        decreases pn - i,
    {
        if prefix.get_char(i) != s.get_char(i) {
            proof {
                assert(s@.subrange(0, pn as int)[i as int] == s@[i as int]);
            }
            return false;
        }
        i = i + 1;
    }
    proof {
        assert(prefix@ =~= s@.subrange(0, pn as int));
    }
    true
}

/// Does `s` end with `suffix`?
pub fn str_ends_with(s: &str, suffix: &str) -> (r: bool)
    ensures
        r == suffix@.is_suffix_of(s@),
{
    let xn = suffix.unicode_len();
    let sn = s.unicode_len();
    if xn > sn {
        return false;
    }
    let k = sn - xn;
    let mut i: usize = 0;
    while i < xn
        invariant
            xn == suffix@.len(),
            sn == s@.len(),
            xn <= sn,
            k == sn - xn,
            i <= xn,
            forall|j: int| 0 <= j < i ==> suffix@[j] == s@[k + j],
        decreases xn - i,
    {
        if suffix.get_char(i) != s.get_char(k + i) {
            proof {
                assert(s@.subrange(k as int, sn as int)[i as int] == s@[k + i]);
            }
            return false;
        }
        i = i + 1;
    }
    proof {
        assert(suffix@ =~= s@.subrange(k as int, sn as int));
    }
    true
}

/// Find the first occurrence of a character.
pub fn find_char(s: &str, c: char) -> (r: Option<usize>)
    ensures
        (r matches Some(j) ==> (s@.index_of_first(c) matches Some(i) && i == j as int)),
        r is None ==> s@.index_of_first(c) is None,
{
    proof {
        s@.index_of_first_ensures(c);
    }
    let n = s.unicode_len();
    let mut i: usize = 0;
    while i < n
        invariant
            n == s@.len(),
            i <= n,
            forall|j: int| 0 <= j < i ==> s@[j] != c,
        decreases n - i,
    {
        if s.get_char(i) == c {
            proof {
                s@.index_of_first_ensures(c);
            }
            return Some(i);
        }
        i = i + 1;
    }
    proof {
        s@.index_of_first_ensures(c);
    }
    None
}

/// The character for one decimal digit.
pub open spec fn dec_digit_char(d: nat) -> char {
    if d == 0 {
        '0'
    } else if d == 1 {
        '1'
    } else if d == 2 {
        '2'
    } else if d == 3 {
        '3'
    } else if d == 4 {
        '4'
    } else if d == 5 {
        '5'
    } else if d == 6 {
        '6'
    } else if d == 7 {
        '7'
    } else if d == 8 {
        '8'
    } else {
        '9'
    }
}

/// The decimal rendering of `n`, most significant digit first, no leading
/// zeros (except for `n == 0` itself).
pub open spec fn dec_digits(n: nat) -> Seq<char>
    decreases n,
{
    if n < 10 {
        seq![dec_digit_char(n)]
    } else {
        dec_digits(n / 10) + seq![dec_digit_char(n % 10)]
    }
}

/// One decimal digit as a string slice.
fn digit_str(d: u8) -> (r: &'static str)
    requires
        d < 10,
    ensures
        r@ == seq![dec_digit_char(d as nat)],
{
    if d == 0 {
        proof {
            reveal_strlit("0");
            assert("0"@ =~= seq![dec_digit_char(0)]);
        }
        "0"
    } else if d == 1 {
        proof {
            reveal_strlit("1");
            assert("1"@ =~= seq![dec_digit_char(1)]);
        }
        "1"
    } else if d == 2 {
        proof {
            reveal_strlit("2");
            assert("2"@ =~= seq![dec_digit_char(2)]);
        }
        "2"
    } else if d == 3 {
        proof {
            reveal_strlit("3");
            assert("3"@ =~= seq![dec_digit_char(3)]);
        }
        "3"
    } else if d == 4 {
        proof {
            reveal_strlit("4");
            assert("4"@ =~= seq![dec_digit_char(4)]);
        }
        "4"
    } else if d == 5 {
        proof {
            reveal_strlit("5");
            assert("5"@ =~= seq![dec_digit_char(5)]);
        }
        "5"
    } else if d == 6 {
        proof {
            reveal_strlit("6");
            assert("6"@ =~= seq![dec_digit_char(6)]);
        }
        "6"
    } else if d == 7 {
        proof {
            reveal_strlit("7");
            assert("7"@ =~= seq![dec_digit_char(7)]);
        }
        "7"
    } else if d == 8 {
        proof {
            reveal_strlit("8");
            assert("8"@ =~= seq![dec_digit_char(8)]);
        }
        "8"
    } else {
        proof {
            reveal_strlit("9");
            assert("9"@ =~= seq![dec_digit_char(9)]);
        }
        "9"
    }
}

/// Render `n` in decimal.
pub fn u32_to_string(n: u32) -> (s: String)
    ensures
        s@ == dec_digits(n as nat),
{
    let mut digits: Vec<u8> = Vec::new();
    let ghost mut suffix: Seq<char> = Seq::empty();
    let mut m = n;
    while m >= 10
        invariant
            dec_digits(n as nat) == dec_digits(m as nat) + suffix,
            suffix == Seq::new(
                digits@.len(),
                |i: int| dec_digit_char(digits@[digits@.len() - 1 - i] as nat),
            ),
            forall|j: int| 0 <= j < digits@.len() ==> digits@[j] < 10,
        decreases m,
    {
        let d = (m % 10) as u8;
        digits.push(d);
        proof {
            let new_suffix = seq![dec_digit_char(d as nat)] + suffix;
            assert(new_suffix =~= Seq::new(
                digits@.len(),
                |i: int| dec_digit_char(digits@[digits@.len() - 1 - i] as nat),
            ));
            assert(dec_digits(m as nat) == dec_digits((m / 10) as nat) + seq![
                dec_digit_char((m % 10) as nat),
            ]);
            assert(dec_digits(m as nat) + suffix =~= dec_digits((m / 10) as nat) + new_suffix);
            suffix = new_suffix;
        }
        m = m / 10;
    }
    let d = m as u8;
    digits.push(d);
    proof {
        let new_suffix = seq![dec_digit_char(d as nat)] + suffix;
        assert(new_suffix =~= Seq::new(
            digits@.len(),
            |i: int| dec_digit_char(digits@[digits@.len() - 1 - i] as nat),
        ));
        assert(dec_digits(m as nat) =~= seq![dec_digit_char(m as nat)]);
        assert(dec_digits(n as nat) =~= new_suffix);
        suffix = new_suffix;
    }
    let count = digits.len();
    let mut s = String::new();
    let mut i: usize = 0;
    while i < count
        invariant
            count == digits@.len(),
            i <= count,
            suffix == Seq::new(
                digits@.len(),
                |k: int| dec_digit_char(digits@[digits@.len() - 1 - k] as nat),
            ),
            forall|j: int| 0 <= j < digits@.len() ==> digits@[j] < 10,
            s@ == suffix.take(i as int),
            dec_digits(n as nat) == suffix,
        decreases count - i,
    {
        let piece = digit_str(digits[count - 1 - i]);
        s.append(piece);
        proof {
            assert(s@ =~= suffix.take(i + 1));
        }
        i = i + 1;
    }
    proof {
        assert(suffix.take(count as int) =~= suffix);
    }
    s
}

} // verus!
