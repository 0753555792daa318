//! Generated identifiers for stored artifacts: a random 32-bit value joined
//! with a millisecond timestamp. Uniqueness is only probabilistic; nothing
//! here enforces more than that.

use vstd::prelude::*;
use vstd::string::*;
use crate::text::{dec_digits, is_digit, lemma_dec_digits_are_digits, u64_to_string};

verus! {

/// Relies on `rand::random`: an arbitrary value of the drawn type. Nothing
/// can be promised of it.
pub assume_specification<T>[ rand::random::<T> ]() -> (r: T)
    where
        rand::distr::StandardUniform: rand::distr::Distribution<T>,
;

/// Relies on `std::time::SystemTime::now` and
/// `SystemTime::duration_since(UNIX_EPOCH)`: milliseconds since the epoch,
/// zero for a clock set before it. No promise is made of the value.
#[verifier::external_body]
fn now_unix_millis() -> u64 {
    match std::time::SystemTime::now().duration_since(std::time::UNIX_EPOCH) {
        Ok(d) => d.as_millis() as u64,
        Err(_) => 0,
    }
}

/// The characters of the id built from a random value `r` and a timestamp
/// `m`: `{r}_{m}`, both in decimal.
pub open spec fn id_chars(r: nat, m: nat) -> Seq<char> {
    dec_digits(r) + seq!['_'] + dec_digits(m)
}

/// No generated id holds a `'.'` or a `'/'`: only digits and one `'_'`.
pub proof fn lemma_id_chars_plain(r: nat, m: nat)
    ensures
        forall|k: int| 0 <= k < id_chars(r, m).len() ==> id_chars(r, m)[k] != '.',
        forall|k: int| 0 <= k < id_chars(r, m).len() ==> id_chars(r, m)[k] != '/',
{
    lemma_dec_digits_are_digits(r);
    lemma_dec_digits_are_digits(m);
    let s = id_chars(r, m);
    assert forall|k: int| 0 <= k < s.len() implies s[k] != '.' && s[k] != '/' by {
        if k < dec_digits(r).len() {
            assert(s[k] == dec_digits(r)[k]);
            assert(is_digit(dec_digits(r)[k]));
        } else if k == dec_digits(r).len() {
            assert(s[k] == '_');
        } else {
            assert(s[k] == dec_digits(m)[k - dec_digits(r).len() - 1]);
            assert(is_digit(dec_digits(m)[k - dec_digits(r).len() - 1]));
        }
    }
}

/// Joins a random value and a timestamp into the id text `{r}_{m}`.
pub fn make_id(r: u32, m: u64) -> (s: String)
    ensures
        s@ =~= id_chars(r as nat, m as nat),
{
    proof {
        reveal_strlit("_");
    }
    let mut s = u64_to_string(r as u64);
    s.append("_");
    let rest = u64_to_string(m);
    s.append(rest.as_str());
    s
}

/// Draws a fresh artifact id from the random source and the clock: a
/// 32-bit random component joined with a millisecond timestamp. Distinct
/// calls collide only with negligible probability; no stronger uniqueness
/// is promised, and none is stated.
pub fn generate_filename() -> (s: String)
    ensures
        exists|r: nat, m: nat| r < 0x1_0000_0000 && s@ =~= #[trigger] id_chars(r, m),
{
    let r: u32 = rand::random::<u32>();
    let m: u64 = now_unix_millis();
    let s = make_id(r, m);
    proof {
        assert(s@ =~= id_chars(r as nat, m as nat));
    }
    s
}

} // verus!
