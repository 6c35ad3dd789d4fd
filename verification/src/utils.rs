//! Key and token generation, filename formatting, and decimal parsing.

use vstd::prelude::*;
use vstd::string::StringExecFns;
use vstd::string::StrSliceExecFns;
use rand::Rng;

verus! {

/// Length of a session token.
pub const AUTH_TOKEN_LENGTH: usize = 64;
/// Length of a random object-store key.
pub const OBJECT_NAME_LENGTH: usize = 32;
/// Length of a random file name.
pub const FILE_NAME_LENGTH: usize = 32;

/// An ASCII letter or digit.
pub open spec fn is_alphanumeric_ascii(c: char) -> bool {
    ('a' as int <= c as int && c as int <= 'z' as int)
    || ('A' as int <= c as int && c as int <= 'Z' as int)
    || ('0' as int <= c as int && c as int <= '9' as int)
}

/// Relies on rand's `Alphanumeric` distribution sampled from `OsRng`: each
/// sampled byte is one of `A-Z`, `a-z`, `0-9`, and `take(len)` yields exactly
/// `len` of them. The result is random, so nothing more is promised.
#[verifier::external_body]
fn random_alphanumeric(len: usize) -> (r: String)
    ensures
        r@.len() == len,
        forall|i: int| 0 <= i < r@.len() ==> is_alphanumeric_ascii(#[trigger] r@[i]),
{
    rand::rngs::OsRng
        .sample_iter(&rand::distributions::Alphanumeric)
        .take(len)
        .map(char::from)
        .collect::<String>()
}

/// A secure random token for sessions.
pub fn get_auth_token() -> (r: String)
    ensures
        r@.len() == AUTH_TOKEN_LENGTH,
        forall|i: int| 0 <= i < r@.len() ==> is_alphanumeric_ascii(#[trigger] r@[i]),
{
    random_alphanumeric(AUTH_TOKEN_LENGTH)
}

/// A random object name for the object store.
pub fn get_object_name() -> (r: String)
    ensures
        r@.len() == OBJECT_NAME_LENGTH,
        forall|i: int| 0 <= i < r@.len() ==> is_alphanumeric_ascii(#[trigger] r@[i]),
{
    random_alphanumeric(OBJECT_NAME_LENGTH)
}

/// A random file name.
pub fn get_file_name() -> (r: String)
    ensures
        r@.len() == FILE_NAME_LENGTH,
        forall|i: int| 0 <= i < r@.len() ==> is_alphanumeric_ascii(#[trigger] r@[i]),
{
    random_alphanumeric(FILE_NAME_LENGTH)
}

/// Relies on uuid's `Uuid::now_v7` and `as_u128`: a fresh, time-sortable
/// opaque identity. The result depends on the clock and on randomness, so
/// nothing is promised of it.
#[verifier::external_body]
pub(crate) fn fresh_id() -> u128 {
    uuid::Uuid::now_v7().as_u128()
}

/// Joins a base filename with a quality-tier label, separated by a dash.
pub fn format_filename(filename: &str, quality: &str) -> (r: String)
    ensures
        r@ == filename@ + "-"@ + quality@,
{
    let mut r = filename.to_owned();
    r.append("-");
    r.append(quality);
    r
}

/// An ASCII decimal digit.
pub open spec fn is_digit_char(c: char) -> bool {
    '0' as int <= c as int && c as int <= '9' as int
}

/// A non-empty string of ASCII decimal digits.
pub open spec fn is_decimal_string(s: Seq<char>) -> bool {
    s.len() > 0 && forall|i: int| 0 <= i < s.len() ==> is_digit_char(#[trigger] s[i])
}

/// The number a string of decimal digits denotes.
pub open spec fn decimal_value(s: Seq<char>) -> int
    decreases s.len(),
{
    if s.len() == 0 {
        0
    } else {
        decimal_value(s.drop_last()) * 10 + (s.last() as int - '0' as int)
    }
}

/// A digit string denotes a non-negative number.
proof fn lemma_decimal_nonneg(s: Seq<char>)
    requires
        forall|i: int| 0 <= i < s.len() ==> is_digit_char(#[trigger] s[i]),
    ensures
        decimal_value(s) >= 0,
    decreases s.len(),
{
    if s.len() > 0 {
        assert(forall|i: int| 0 <= i < s.drop_last().len()
            ==> is_digit_char(#[trigger] s.drop_last()[i]));
        lemma_decimal_nonneg(s.drop_last());
    }
}

/// A digit string denotes at least as much as any of its prefixes.
proof fn lemma_decimal_prefix_le(s: Seq<char>, k: int)
    requires
        0 <= k <= s.len(),
        forall|i: int| 0 <= i < s.len() ==> is_digit_char(#[trigger] s[i]),
    ensures
        decimal_value(s.take(k)) <= decimal_value(s),
    decreases s.len() - k,
{
    assert(forall|i: int| 0 <= i < s.take(k).len() ==> is_digit_char(#[trigger] s.take(k)[i]));
    lemma_decimal_nonneg(s.take(k));
    if k < s.len() {
        assert(s.take(k + 1).drop_last() =~= s.take(k));
        assert(s.take(k + 1).last() == s[k]);
        assert(decimal_value(s.take(k)) <= decimal_value(s.take(k + 1)));
        lemma_decimal_prefix_le(s, k + 1);
    } else {
        assert(s.take(k) =~= s);
    }
}

/// Reads a non-negative decimal integer, rejecting anything else and any
/// value that does not fit in a `u64`.
pub fn parse_decimal_u64(s: &str) -> (r: Option<u64>)
    ensures
        r is Some <==> is_decimal_string(s@) && decimal_value(s@) <= u64::MAX,
        r is Some ==> r->0 == decimal_value(s@),
{
    let len = s.unicode_len();
    if len == 0 {
        return None;
    }
    let mut val: u64 = 0;
    let mut i: usize = 0;
    while i < len
        invariant
            0 <= i <= len,
            len == s@.len(),
            forall|j: int| 0 <= j < i ==> is_digit_char(#[trigger] s@[j]),
            val == decimal_value(s@.take(i as int)),
        decreases len - i,
    {
        let c = s.get_char(i);
        let cu = c as u32;
        if !(cu >= 48 && cu <= 57) {
            return None;
        }
        let d: u64 = (cu - 48) as u64;
        proof {
            assert(s@.take(i + 1).drop_last() =~= s@.take(i as int));
            assert(s@.take(i + 1).last() == s@[i as int]);
        }
        let shifted = match val.checked_mul(10) {
            Some(v) => v,
            None => {
                proof {
                    if is_decimal_string(s@) {
                        lemma_decimal_prefix_le(s@, i + 1);
                    }
                }
                return None;
            },
        };
        val = match shifted.checked_add(d) {
            Some(v) => v,
            None => {
                proof {
                    if is_decimal_string(s@) {
                        lemma_decimal_prefix_le(s@, i + 1);
                    }
                }
                return None;
            },
        };
        i = i + 1;
    }
    proof {
        assert(s@.take(len as int) =~= s@);
    }
    Some(val)
}

} // verus!
