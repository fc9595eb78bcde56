//! Random alphanumeric strings, drawn with `rand`.

use vstd::prelude::*;
use crate::text::push_char;
use rand::RngExt;
use rand::rngs::ThreadRng;

verus! {

/// `rand::rngs::ThreadRng`, the generator of the current thread.
#[verifier::external_type_specification]
#[verifier::external_body]
pub struct ExThreadRng(rand::rngs::ThreadRng);

/// An ASCII letter or digit.
pub open spec fn is_alphanumeric(c: char) -> bool {
    ('A' <= c <= 'Z') || ('a' <= c <= 'z') || ('0' <= c <= '9')
}

/// Every character is an ASCII letter or digit.
pub open spec fn all_alphanumeric(s: Seq<char>) -> bool {
    forall|i: int| 0 <= i < s.len() ==> is_alphanumeric(#[trigger] s[i])
}

/// `rand::rng()`: a handle to the thread's generator.
#[verifier::external_body]
fn thread_rng() -> ThreadRng {
    rand::rng()
}

/// `rng.sample(rand::distr::Alphanumeric)`: one byte drawn from
/// `A-Z`, `a-z` and `0-9` (the distribution's charset). Which byte is drawn
/// is left open.
#[verifier::external_body]
fn sample_alphanumeric(rng: &mut ThreadRng) -> (b: u8)
    ensures
        is_alphanumeric(b as char),
{
    rng.sample(rand::distr::Alphanumeric)
}

/// A string of `length` random ASCII letters and digits.
pub fn generate_random_string(length: usize) -> (s: String)
    ensures
        s@.len() == length,
        all_alphanumeric(s@),
{
    let mut rng = thread_rng();
    let mut s = String::new();
    let mut i: usize = 0;
    while i < length
        invariant
            i <= length,
            s@.len() == i,
            all_alphanumeric(s@),
        decreases length - i,
    {
        let b = sample_alphanumeric(&mut rng);
        push_char(&mut s, b as char);
        i = i + 1;
    }
    s
}

} // verus!
