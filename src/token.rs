use rand::Rng;
use vstd::prelude::*;

verus! {

/// The length of a confirmation token.
pub const TOKEN_LENGTH: usize = 25;

/// Whether `c` is an ASCII letter or digit.
pub open spec fn is_ascii_alphanumeric(c: char) -> bool {
    ('A' <= c && c <= 'Z') || ('a' <= c && c <= 'z') || ('0' <= c && c <= '9')
}

/// Whether `s` has the shape of a confirmation token.
pub open spec fn is_token_shaped(s: Seq<char>) -> bool {
    &&& s.len() == TOKEN_LENGTH
    &&& forall|i: int| 0 <= i < s.len() ==> is_ascii_alphanumeric(#[trigger] s[i])
}

/// Relies on rand's `Alphanumeric` distribution, sampled from `rand::rng()`
/// (the thread-local generator): a byte drawn from `A-Z`, `a-z` and `0-9`,
/// turned into a char.
#[verifier::external_body]
fn random_alphanumeric() -> (c: char)
    ensures
        is_ascii_alphanumeric(c),
{
    char::from(rand::rng().sample(rand::distr::Alphanumeric))
}

/// Relies on std's `String::push`: appends one char.
#[verifier::external_body]
pub(crate) fn push_char(s: &mut String, c: char)
    ensures
        final(s)@ == old(s)@.push(c),
{
    s.push(c)
}

/// A fresh one-time confirmation token: 25 random ASCII letters and digits.
pub fn generate_subscription_token() -> (r: String)
    ensures
        is_token_shaped(r@),
{
    let mut token = String::new();
    let mut i: usize = 0;
    while i < TOKEN_LENGTH
        invariant
            i <= TOKEN_LENGTH,
            token@.len() == i,
            forall|k: int| 0 <= k < token@.len() ==> is_ascii_alphanumeric(#[trigger] token@[k]),
        decreases TOKEN_LENGTH - i,
    {
        let c = random_alphanumeric();
        push_char(&mut token, c);
        i = i + 1;
    }
    token
}

} // verus!
