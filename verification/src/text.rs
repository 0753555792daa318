//! Character-level utilities shared by the rest of the library: string
//! equality, substring search, and decimal digit formatting and parsing.

use vstd::prelude::*;
use vstd::string::*;

verus! {

/// True when `c` is an ASCII decimal digit.
pub open spec fn is_digit(c: char) -> bool {
    48 <= c as int && c as int <= 57
}

/// Numeric value of a single ASCII digit.
pub open spec fn digit_val(c: char) -> nat
    recommends
        is_digit(c),
{
    (c as int - 48) as nat
}

/// The digit character for a value below ten.
pub open spec fn digit_char(d: nat) -> char
    recommends
        d < 10,
{
    if d == 0 {
        '0'
    } else if d == 1 {
        '1'
    } else if d == 2 {
        '2'
    } else if d == 3 {
        '3'
    } else if d == 4 {
        '4'
    } else if d == 5 {
        '5'
    } else if d == 6 {
        '6'
    } else if d == 7 {
        '7'
    } else if d == 8 {
        '8'
    } else {
        '9'
    }
}

/// The canonical decimal rendering of `n`, most significant digit first,
/// without leading zeros (a single `'0'` for zero).
pub open spec fn dec_digits(n: nat) -> Seq<char>
    decreases n,
{
    if n < 10 {
        seq![digit_char(n)]
    } else {
        dec_digits(n / 10) + seq![digit_char(n % 10)]
    }
}

/// Value of a digit sequence read as a decimal number.
pub open spec fn dec_val(s: Seq<char>) -> nat
    decreases s.len(),
{
    if s.len() == 0 {
        0
    } else {
        dec_val(s.drop_last()) * 10 + digit_val(s.last())
    }
}

/// True when every character of `s` is an ASCII digit.
pub open spec fn all_digits(s: Seq<char>) -> bool {
    forall|i: int| 0 <= i < s.len() ==> is_digit(s[i])
}

/// Every character of a canonical decimal rendering is a digit.
pub proof fn lemma_dec_digits_are_digits(n: nat)
    ensures
        all_digits(dec_digits(n)),
        dec_digits(n).len() >= 1,
    decreases n,
{
    if n < 10 {
    } else {
        lemma_dec_digits_are_digits(n / 10);
        assert forall|i: int| 0 <= i < dec_digits(n).len() implies is_digit(dec_digits(n)[i]) by {
            if i < dec_digits(n / 10).len() {
                assert(dec_digits(n)[i] == dec_digits(n / 10)[i]);
            }
        }
    }
}

/// Compares two string slices character by character.
pub fn str_eq(a: &str, b: &str) -> (r: bool)
    ensures
        r == (a@ == b@),
{
    let alen = a.unicode_len();
    let blen = b.unicode_len();
    if alen != blen {
        assert(a@ != b@);
        return false;
    }
    let mut i: usize = 0;
    while i < alen
        invariant
            alen == a@.len(),
            alen == b@.len(),
            0 <= i <= alen,
            forall|j: int| 0 <= j < i ==> a@[j] == b@[j],
        decreases alen - i,
    {
        if a.get_char(i) != b.get_char(i) {
            assert(a@ != b@);
            return false;
        }
        i = i + 1;
    }
    assert(a@ =~= b@);
    true
}

/// True when `pat` occurs in `s` as a contiguous run of characters.
pub open spec fn contains_seq(s: Seq<char>, pat: Seq<char>) -> bool {
    exists|i: int|
        0 <= i <= s.len() - pat.len() && #[trigger] s.subrange(i, i + pat.len()) =~= pat
}

/// Whether the characters of `pat` occur contiguously in `s`.
pub fn contains_str(s: &str, pat: &str) -> (r: bool)
    ensures
        r == contains_seq(s@, pat@),
{
    let slen = s.unicode_len();
    let plen = pat.unicode_len();
    if plen > slen {
        assert(!contains_seq(s@, pat@));
        return false;
    }
    let mut i: usize = 0;
    while i <= slen - plen
        invariant
            slen == s@.len(),
            plen == pat@.len(),
            plen <= slen,
            0 <= i <= slen - plen + 1,
            forall|k: int| 0 <= k < i ==> !(#[trigger] s@.subrange(k, k + pat@.len()) =~= pat@),
        decreases slen + 1 - i,
    {
        let mut j: usize = 0;
        let mut matched: bool = true;
        while j < plen
            invariant
                slen == s@.len(),
                plen == pat@.len(),
                0 <= i <= slen - plen,
                0 <= j <= plen,
                matched ==> forall|k: int| 0 <= k < j ==> s@[i + k] == pat@[k],
                !matched ==> !(s@.subrange(i as int, i + pat@.len()) =~= pat@),
            decreases plen - j,
        {
            if s.get_char(i + j) != pat.get_char(j) {
                matched = false;
                proof {
                    assert(s@.subrange(i as int, i + pat@.len())[j as int] != pat@[j as int]);
                    assert(!(s@.subrange(i as int, i + pat@.len()) =~= pat@));
                }
                j = plen;
            } else {
                j = j + 1;
            }
        }
        if matched {
            proof {
                assert forall|k: int| 0 <= k < pat@.len() implies s@.subrange(
                    i as int,
                    i + pat@.len(),
                )[k] == pat@[k] by {}
                assert(s@.subrange(i as int, i + pat@.len()) =~= pat@);
            }
            return true;
        }
        proof {
            assert(!(s@.subrange(i as int, i + pat@.len()) =~= pat@));
        }
        i = i + 1;
    }
    assert forall|k: int| 0 <= k <= s@.len() - pat@.len() implies !(#[trigger] s@.subrange(
        k,
        k + pat@.len(),
    ) =~= pat@) by {}
    false
}

/// The single-character string for a digit value.
fn digit_str(d: u64) -> (r: &'static str)
    requires
        d < 10,
    ensures
        r@ =~= seq![digit_char(d as nat)],
{
    proof {
        reveal_strlit("0");
        reveal_strlit("1");
        reveal_strlit("2");
        reveal_strlit("3");
        reveal_strlit("4");
        reveal_strlit("5");
        reveal_strlit("6");
        reveal_strlit("7");
        reveal_strlit("8");
        reveal_strlit("9");
    }
    if d == 0 {
        "0"
    } else if d == 1 {
        "1"
    } else if d == 2 {
        "2"
    } else if d == 3 {
        "3"
    } else if d == 4 {
        "4"
    } else if d == 5 {
        "5"
    } else if d == 6 {
        "6"
    } else if d == 7 {
        "7"
    } else if d == 8 {
        "8"
    } else {
        "9"
    }
}

/// Renders `n` in decimal, matching `dec_digits`.
pub fn u64_to_string(n: u64) -> (r: String)
    ensures
        r@ =~= dec_digits(n as nat),
    decreases n,
{
    if n < 10 {
        String::from_str(digit_str(n))
    } else {
        let mut s = u64_to_string(n / 10);
        s.append(digit_str(n % 10));
        assert(s@ =~= dec_digits((n / 10) as nat) + seq![digit_char((n % 10) as nat)]);
        s
    }
}

/// Largest value a `usize` holds, as the parser needs it for its overflow
/// check.
pub open spec fn usize_max() -> nat {
    usize::MAX as nat
}

/// Reads a non-empty digit string (with one optional leading `'+'`) as a
/// `usize`, the way a content-length header is read.
/// Returns `None` when the text is not of that shape or the value does not
/// fit.
pub open spec fn parses_as_usize(s: Seq<char>, n: nat) -> bool {
    let digits: Seq<char> = if s.len() > 0 && s[0] == '+' {
        s.subrange(1, s.len() as int)
    } else {
        s
    };
    &&& digits.len() > 0
    &&& all_digits(digits)
    &&& dec_val(digits) == n
    &&& n <= usize_max()
}

/// Parses a decimal `usize`, accepting the same texts as the standard
/// library's integer parse of a non-negative number.
pub fn parse_usize(s: &str) -> (r: Option<usize>)
    ensures
        r matches Some(n) ==> parses_as_usize(s@, n as nat),
        r is None ==> forall|n: nat| !parses_as_usize(s@, n),
{
    let len = s.unicode_len();
    if len == 0 {
        assert forall|n: nat| !parses_as_usize(s@, n) by {}
        return None;
    }
    let start: usize = if s.get_char(0) == '+' {
        1
    } else {
        0
    };
    let ghost sd: Seq<char> = if s@.len() > 0 && s@[0] == '+' {
        s@.subrange(1, s@.len() as int)
    } else {
        s@
    };
    proof {
        assert(sd =~= s@.subrange(start as int, s@.len() as int));
    }
    if start == len {
        assert forall|n: nat| !parses_as_usize(s@, n) by {
            assert(sd.len() == 0);
        }
        return None;
    }
    let mut acc: usize = 0;
    let mut i: usize = start;
    while i < len
        invariant
            len == s@.len(),
            start <= i <= len,
            start < len,
            start == 0 || (start == 1 && s@[0] == '+'),
            sd == s@.subrange(start as int, s@.len() as int),
            sd == (if s@.len() > 0 && s@[0] == '+' {
                s@.subrange(1, s@.len() as int)
            } else {
                s@
            }),
            all_digits(s@.subrange(start as int, i as int)),
            acc as nat == dec_val(s@.subrange(start as int, i as int)),
        decreases len - i,
    {
        let c = s.get_char(i);
        let cv: u32 = c as u32;
        if !(48 <= cv && cv <= 57) {
            assert forall|n: nat| !parses_as_usize(s@, n) by {
                assert(sd[i - start] == s@[i as int]);
                assert(!is_digit(sd[i - start]));
            }
            return None;
        }
        let d: u32 = cv - 48;
        assert(d == digit_val(c));
        let ghost prev: Seq<char> = s@.subrange(start as int, i as int);
        let ghost cur: Seq<char> = s@.subrange(start as int, i + 1);
        proof {
            assert(cur.drop_last() =~= prev);
            assert(cur.last() == s@[i as int]);
        }
        if acc > usize::MAX / 10 || (acc == usize::MAX / 10 && d as usize > usize::MAX % 10) {
            proof {
                assert(cur =~= sd.subrange(0, i + 1 - start));
                lemma_dec_val_prefix_monotone(sd, i + 1 - start);
                vstd::arithmetic::div_mod::lemma_fundamental_div_mod(usize::MAX as int, 10);
                assert(dec_val(cur) == dec_val(prev) * 10 + digit_val(cur.last()));
                assert(dec_val(cur) > usize_max());
                assert(dec_val(sd) > usize_max());
            }
            assert forall|n: nat| !parses_as_usize(s@, n) by {}
            return None;
        }
        acc = acc * 10 + d as usize;
        i = i + 1;
    }
    proof {
        assert(s@.subrange(start as int, len as int) == sd);
        assert(sd.len() > 0);
        assert(all_digits(sd));
        assert(dec_val(sd) == acc as nat);
    }
    Some(acc)
}

/// Reading more digits never shrinks the value: the value of a digit prefix
/// bounds the value of the whole from below.
proof fn lemma_dec_val_prefix_monotone(s: Seq<char>, k: int)
    requires
        0 <= k <= s.len(),
    ensures
        dec_val(s) >= dec_val(s.subrange(0, k)),
    decreases s.len() - k,
{
    if k < s.len() {
        lemma_dec_val_prefix_monotone(s, k + 1);
        let a = s.subrange(0, k);
        let b = s.subrange(0, k + 1);
        assert(b.drop_last() =~= a);
        assert(dec_val(b) == dec_val(a) * 10 + digit_val(b.last()));
        assert(dec_val(a) * 10 >= dec_val(a)) by (nonlinear_arith);
    } else {
        assert(s.subrange(0, k) =~= s);
    }
}

} // verus!
