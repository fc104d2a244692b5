//! Random names: lowercase alphanumeric strings and unique file names.
use vstd::prelude::*;

use crate::text::push_char;

verus! {

/// Whether `b` is an ASCII letter or digit.
pub open spec fn is_ascii_alphanumeric(b: u8) -> bool {
    (65 <= b <= 90) || (97 <= b <= 122) || (48 <= b <= 57)
}

/// Whether `c` is a lowercase ASCII letter or a digit.
pub open spec fn is_lower_alphanumeric(c: char) -> bool {
    ('a' <= c && c <= 'z') || ('0' <= c && c <= '9')
}

pub open spec fn all_lower_alphanumeric(s: Seq<char>) -> bool {
    forall|i: int| 0 <= i < s.len() ==> is_lower_alphanumeric(#[trigger] s[i])
}

/// Relies on rand's `Alphanumeric` distribution, sampled with the
/// thread-local generator: one byte of `A-Z`, `a-z` or `0-9`.
#[verifier::external_body]
fn sample_alphanumeric() -> (r: u8)
    ensures
        is_ascii_alphanumeric(r),
{
    rand::Rng::sample(&mut rand::thread_rng(), rand::distributions::Alphanumeric)
}

/// Relies on uuid's `Uuid::new_v4` and its `Display`: a random UUID in the
/// hyphenated form of 36 characters.
#[verifier::external_body]
fn random_uuid_text() -> (r: String)
    ensures
        r@.len() == 36,
{
    uuid::Uuid::new_v4().to_string()
}

/// A random string of `len` lowercase letters and digits.
pub fn random_alphanum(len: usize) -> (r: String)
    ensures
        r@.len() == len,
        all_lower_alphanumeric(r@),
{
    let mut s = String::new();
    let mut i: usize = 0;
    while i < len
        invariant
            i <= len,
            s@.len() == i,
            all_lower_alphanumeric(s@),
        decreases len - i,
    {
        let b: u8 = sample_alphanumeric();
        let lower: u8 = if 65 <= b && b <= 90 {
            b + 32
        } else {
            b
        };
        let c: char = lower as char;
        let ghost before = s@;
        push_char(&mut s, c);
        assert(is_lower_alphanumeric(c));
        assert forall|k: int| 0 <= k < s@.len() implies is_lower_alphanumeric(#[trigger] s@[k]) by {
            if k < before.len() {
                assert(s@[k] == before[k]);
            }
        }
        i = i + 1;
    }
    s
}

/// A file name that no other call gives: a random UUID, a dot and
/// `extension`.
pub fn temp_file_name(extension: &str) -> (r: String)
    ensures
        exists|id: Seq<char>| id.len() == 36 && r@ == id + "."@ + extension@,
{
    let mut name = random_uuid_text();
    let ghost id = name@;
    name.append(".");
    name.append(extension);
    assert(name@ == id + "."@ + extension@);
    name
}

/// Whether an answer to an overwrite prompt accepts: `y` or `Y`.
pub fn confirms_overwrite(answer: char) -> (r: bool)
    ensures
        r == (answer == 'y' || answer == 'Y'),
{
    answer == 'y' || answer == 'Y'
}

} // verus!
