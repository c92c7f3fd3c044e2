//! Verified decimal rendering: the digit sequence of a number, and the
//! string-building routine that produces it.

use vstd::prelude::*;
use vstd::string::StringExecFns;

verus! {

/// The character for one decimal digit.
pub open spec fn digit_char(d: nat) -> char {
    if d == 0 {
        '0'
    } else if d == 1 {
        '1'
    } else if d == 2 {
        '2'
    } else if d == 3 {
        '3'
    } else if d == 4 {
        '4'
    } else if d == 5 {
        '5'
    } else if d == 6 {
        '6'
    } else if d == 7 {
        '7'
    } else if d == 8 {
        '8'
    } else {
        '9'
    }
}

/// The decimal digit characters of a number, most significant first, with
/// no leading zeros (zero itself is the single character '0').
pub open spec fn dec_digits(n: nat) -> Seq<char>
    decreases n,
{
    if n < 10 {
        seq![digit_char(n)]
    } else {
        dec_digits(n / 10) + seq![digit_char(n % 10)]
    }
}

/// The digit characters of a little-endian digit list, read back to front.
spec fn rev_chars(ds: Seq<u8>) -> Seq<char> {
    Seq::new(ds.len(), |i: int| digit_char(ds[ds.len() - 1 - i] as nat))
}

/// Append one decimal digit character.
fn append_digit(s: &mut String, d: u8)
    requires
        d < 10,
    ensures
        final(s)@ == old(s)@ + seq![digit_char(d as nat)],
{
    proof {
        reveal_strlit("0");
        reveal_strlit("1");
        reveal_strlit("2");
        reveal_strlit("3");
        reveal_strlit("4");
        reveal_strlit("5");
        reveal_strlit("6");
        reveal_strlit("7");
        reveal_strlit("8");
        reveal_strlit("9");
    }
    match d {
        0 => s.append("0"),
        1 => s.append("1"),
        2 => s.append("2"),
        3 => s.append("3"),
        4 => s.append("4"),
        5 => s.append("5"),
        6 => s.append("6"),
        7 => s.append("7"),
        8 => s.append("8"),
        _ => s.append("9"),
    }
    proof {
        assert(s@ =~= old(s)@ + seq![digit_char(d as nat)]);
    }
}

/// Append the decimal rendering of `n`.
pub fn append_decimal(s: &mut String, n: u64)
    ensures
        final(s)@ == old(s)@ + dec_digits(n as nat),
{
    if n == 0 {
        append_digit(s, 0);
        return ;
    }
    let mut digits: Vec<u8> = Vec::new();
    let mut cur: u64 = n;
    proof {
        assert(dec_digits(n as nat) =~= dec_digits(cur as nat) + rev_chars(digits@));
    }
    while cur > 0
        invariant
            cur > 0 ==> dec_digits(n as nat) == dec_digits(cur as nat) + rev_chars(digits@),
            cur == 0 ==> dec_digits(n as nat) == rev_chars(digits@),
            forall|k: int| 0 <= k < digits@.len() ==> digits@[k] < 10,
        decreases cur,
    {
        let d = (cur % 10) as u8;
        let ghost pre = digits@;
        digits.push(d);
        let ghost prev = cur;
        cur = cur / 10;
        proof {
            assert(rev_chars(digits@) =~= seq![digit_char((prev % 10) as nat)] + rev_chars(pre));
            if prev >= 10 {
                assert(dec_digits(prev as nat) == dec_digits((prev / 10) as nat) + seq![
                    digit_char((prev % 10) as nat),
                ]);
                assert(dec_digits(n as nat) =~= dec_digits(cur as nat) + rev_chars(digits@));
            } else {
                assert(dec_digits(prev as nat) =~= seq![digit_char((prev % 10) as nat)]);
                assert(dec_digits(n as nat) =~= rev_chars(digits@));
            }
        }
    }
    let len = digits.len();
    let mut k: usize = len;
    while k > 0
        invariant
            k <= len,
            len == digits@.len(),
            dec_digits(n as nat) == rev_chars(digits@),
            forall|j: int| 0 <= j < digits@.len() ==> digits@[j] < 10,
            s@ == old(s)@ + rev_chars(digits@).take((len - k) as int),
        decreases k,
    {
        k = k - 1;
        let d = digits[k];
        append_digit(s, d);
        proof {
            let done = (len - k) as int;
            assert(rev_chars(digits@)[done - 1] == digit_char(digits@[k as int] as nat));
            assert(rev_chars(digits@).take(done) =~= rev_chars(digits@).take(done - 1) + seq![
                digit_char(digits@[k as int] as nat),
            ]);
            assert(s@ =~= old(s)@ + rev_chars(digits@).take(done));
        }
    }
    proof {
        assert(rev_chars(digits@).take(len as int) =~= rev_chars(digits@));
        assert(s@ =~= old(s)@ + dec_digits(n as nat));
    }
}

} // verus!
