//! The default file name suggested in the save dialog: the decimal rendering
//! of a timestamp in seconds, followed by the ".json" extension.

use vstd::prelude::*;
use vstd::string::StringExecFns;

verus! {

/// The decimal digit character for `d`, which must be below ten.
pub open spec fn digit_char(d: nat) -> char {
    if d == 0 {
        '0'
    } else if d == 1 {
        '1'
    } else if d == 2 {
        '2'
    } else if d == 3 {
        '3'
    } else if d == 4 {
        '4'
    } else if d == 5 {
        '5'
    } else if d == 6 {
        '6'
    } else if d == 7 {
        '7'
    } else if d == 8 {
        '8'
    } else {
        '9'
    }
}

/// The usual decimal rendering of `n`: most significant digit first, no
/// leading zeros, a single '0' for zero.
pub open spec fn decimal_digits(n: nat) -> Seq<char>
    decreases n,
{
    if n < 10 {
        seq![digit_char(n)]
    } else {
        decimal_digits(n / 10).push(digit_char(n % 10))
    }
}

/// The one-character string for the decimal digit `d`.
fn digit_str(d: u64) -> (s: &'static str)
    requires
        d < 10,
    ensures
        s@ =~= seq![digit_char(d as nat)],
{
    proof {
        reveal_strlit("0");
        reveal_strlit("1");
        reveal_strlit("2");
        reveal_strlit("3");
        reveal_strlit("4");
        reveal_strlit("5");
        reveal_strlit("6");
        reveal_strlit("7");
        reveal_strlit("8");
        reveal_strlit("9");
    }
    if d == 0 {
        "0"
    } else if d == 1 {
        "1"
    } else if d == 2 {
        "2"
    } else if d == 3 {
        "3"
    } else if d == 4 {
        "4"
    } else if d == 5 {
        "5"
    } else if d == 6 {
        "6"
    } else if d == 7 {
        "7"
    } else if d == 8 {
        "8"
    } else {
        "9"
    }
}

/// The characters named by the collected low-order digits, read back to
/// front: most significant digit first.
spec fn rev_chars(ds: Seq<u64>) -> Seq<char> {
    Seq::new(ds.len(), |j: int| digit_char(ds[ds.len() - 1 - j] as nat))
}

proof fn lemma_rev_chars_push(ds: Seq<u64>, d: u64)
    ensures
        rev_chars(ds.push(d)) =~= seq![digit_char(d as nat)] + rev_chars(ds),
{
    let lhs = rev_chars(ds.push(d));
    let rhs = seq![digit_char(d as nat)] + rev_chars(ds);
    assert forall|j: int| 0 <= j < lhs.len() implies lhs[j] == rhs[j] by {
        if j == 0 {
            assert(ds.push(d)[ds.len() as int] == d);
        } else {
            assert(ds.push(d)[ds.len() - j] == ds[ds.len() - j]);
        }
    }
}

/// Renders `n` in decimal, most significant digit first, no leading zeros.
pub fn u64_to_decimal(n: u64) -> (s: String)
    ensures
        s@ == decimal_digits(n as nat),
{
    let mut digits: Vec<u64> = Vec::new();
    let mut rest: u64 = n;
    loop
        invariant_except_break
            digits@.len() == 0 ==> rest == n,
            digits@.len() == 0 || rest > 0,
            rest > 0 ==> decimal_digits(n as nat) =~= decimal_digits(rest as nat) + rev_chars(
                digits@,
            ),
            forall|j: int| 0 <= j < digits@.len() ==> #[trigger] digits@[j] < 10,
        ensures
            decimal_digits(n as nat) =~= rev_chars(digits@),
            forall|j: int| 0 <= j < digits@.len() ==> #[trigger] digits@[j] < 10,
        decreases rest,
    {
        let d: u64 = rest % 10;
        let next: u64 = rest / 10;
        proof {
            lemma_rev_chars_push(digits@, d);
            if digits@.len() == 0 {
                assert(decimal_digits(rest as nat) =~= decimal_digits(rest as nat) + rev_chars(
                    digits@,
                ));
            }
            if next > 0 {
                assert(decimal_digits(rest as nat) == decimal_digits(next as nat).push(
                    digit_char(d as nat),
                ));
                assert(decimal_digits(next as nat).push(digit_char(d as nat)) + rev_chars(digits@)
                    =~= decimal_digits(next as nat) + (seq![digit_char(d as nat)] + rev_chars(
                    digits@,
                )));
            } else {
                assert(decimal_digits(rest as nat) =~= seq![digit_char(d as nat)]);
            }
        }
        digits.push(d);
        rest = next;
        if rest == 0 {
            break;
        }
    }
    let ghost all = rev_chars(digits@);
    let mut s = String::new();
    let mut i: usize = digits.len();
    while i > 0
        invariant
            i <= digits@.len(),
            forall|j: int| 0 <= j < digits@.len() ==> #[trigger] digits@[j] < 10,
            all == rev_chars(digits@),
            decimal_digits(n as nat) =~= all,
            s@ =~= all.take(digits@.len() - i),
        decreases i,
    {
        i = i - 1;
        let c = digit_str(digits[i]);
        s.append(c);
        proof {
            assert(all[digits@.len() - 1 - i] == digit_char(digits@[i as int] as nat));
            assert(s@ =~= all.take(digits@.len() - i));
        }
    }
    proof {
        assert(all.take(digits@.len() as int) =~= all);
    }
    s
}

/// The default file name for a timestamp of `secs` seconds: its decimal
/// rendering followed by the ".json" extension.
pub open spec fn default_name(secs: nat) -> Seq<char> {
    decimal_digits(secs) + ".json"@
}

/// The name suggested in the save dialog for the moment `now_secs`, seconds
/// since the epoch: the timestamp in decimal, then ".json".
pub fn default_file_name(now_secs: u64) -> (s: String)
    ensures
        s@ == default_name(now_secs as nat),
{
    let digits = u64_to_decimal(now_secs);
    digits.concat(".json")
}

/// True of the ten decimal digit characters.
pub open spec fn is_decimal_digit(c: char) -> bool {
    '0' <= c <= '9'
}

/// The numeric value of a decimal digit character.
pub open spec fn digit_value(c: char) -> nat {
    if c == '0' {
        0
    } else if c == '1' {
        1
    } else if c == '2' {
        2
    } else if c == '3' {
        3
    } else if c == '4' {
        4
    } else if c == '5' {
        5
    } else if c == '6' {
        6
    } else if c == '7' {
        7
    } else if c == '8' {
        8
    } else {
        9
    }
}

/// The number a sequence of decimal digit characters denotes.
pub open spec fn decimal_value(s: Seq<char>) -> nat
    decreases s.len(),
{
    if s.len() == 0 {
        0
    } else {
        decimal_value(s.drop_last()) * 10 + digit_value(s.last())
    }
}

/// The decimal rendering of `n` is one or more digit characters, has no
/// leading zero when `n` is positive, and denotes `n` itself.
pub proof fn lemma_decimal_digits_shape(n: nat)
    ensures
        decimal_digits(n).len() >= 1,
        forall|i: int|
            0 <= i < decimal_digits(n).len() ==> is_decimal_digit(#[trigger] decimal_digits(n)[i]),
        n > 0 ==> decimal_digits(n)[0] != '0',
        decimal_value(decimal_digits(n)) == n,
    decreases n,
{
    if n < 10 {
        let s = decimal_digits(n);
        assert(s =~= seq![digit_char(n)]);
        assert(s.drop_last() =~= Seq::<char>::empty());
        assert(decimal_value(s) == decimal_value(s.drop_last()) * 10 + digit_value(s.last()));
    } else {
        lemma_decimal_digits_shape(n / 10);
        let s = decimal_digits(n);
        let prefix = decimal_digits(n / 10);
        assert(s == prefix.push(digit_char(n % 10)));
        assert(s.drop_last() =~= prefix);
        assert(s.last() == digit_char(n % 10));
        assert(s[0] == prefix[0]);
        assert forall|i: int| 0 <= i < s.len() implies is_decimal_digit(#[trigger] s[i]) by {
            if i < prefix.len() {
                assert(s[i] == prefix[i]);
            }
        }
        assert(decimal_value(s) == (n / 10) * 10 + digit_value(digit_char(n % 10)));
        vstd::arithmetic::div_mod::lemma_fundamental_div_mod(n as int, 10);
    }
}

/// The suggested default file name matches `<digits>.json`: one or more
/// decimal digit characters that denote the timestamp itself (so equal
/// timestamps give equal names and distinct timestamps distinct names),
/// followed by the five characters of the ".json" extension.
pub proof fn lemma_default_name_shape(secs: nat)
    ensures
        default_name(secs).len() == decimal_digits(secs).len() + 5,
        decimal_digits(secs).len() >= 1,
        forall|i: int|
            0 <= i < decimal_digits(secs).len() ==> is_decimal_digit(
                #[trigger] default_name(secs)[i],
            ),
        default_name(secs).skip(decimal_digits(secs).len() as int) =~= ".json"@,
        decimal_value(decimal_digits(secs)) == secs,
        secs > 0 ==> default_name(secs)[0] != '0',
{
    reveal_strlit(".json");
    lemma_decimal_digits_shape(secs);
    let digits = decimal_digits(secs);
    assert forall|i: int| 0 <= i < digits.len() implies is_decimal_digit(
        #[trigger] default_name(secs)[i],
    ) by {
        assert(default_name(secs)[i] == digits[i]);
    }
}

} // verus!
