use rand::distributions::Alphanumeric;
use rand::{thread_rng, Rng};
use vstd::prelude::*;
use crate::text::split_on;

verus! {

/// An ASCII letter or digit.
pub open spec fn is_alnum(c: char) -> bool {
    ('a' <= c && c <= 'z') || ('A' <= c && c <= 'Z') || ('0' <= c && c <= '9')
}

/// `s` has `n` characters, each an ASCII letter or digit.
pub open spec fn alnum_text(s: Seq<char>, n: nat) -> bool {
    &&& s.len() == n
    &&& forall|i: int| 0 <= i < s.len() ==> is_alnum(#[trigger] s[i])
}

/// `s` is exactly `n` non-empty words joined by single spaces; empty when `n` is 0.
pub open spec fn words_text(s: Seq<char>, n: nat) -> bool {
    if n == 0 {
        s.len() == 0
    } else {
        &&& split_on(s, ' ').len() == n
        &&& forall|i: int| 0 <= i < n ==> #[trigger] split_on(s, ' ')[i].len() > 0
    }
}

/// `n` characters drawn with `rand`'s `Alphanumeric` distribution from the thread's generator.
///
/// Trusted: the contract states what holds of every draw, as `rand`'s source
/// shows it: `Alphanumeric` yields bytes of `A-Z`, `a-z`, `0-9`, and
/// `take(n)` of the endless sample iterator yields exactly `n` of them.
/// Which characters come out is left open.
#[verifier::external_body]
pub(crate) fn random_alphanumeric(n: u32) -> (r: String)
    ensures
        alnum_text(r@, n as nat),
{
    let r = thread_rng().sample_iter(&Alphanumeric).take(n as usize).collect::<Vec<u8>>();
    String::from_utf8_lossy(&r).into()
}

/// `n` random English words from `rand_word::new`, joined by spaces.
///
/// Trusted: the contract states what holds of every draw, as the crate's
/// README and source show it: `new(n)` gives `n` words drawn from a fixed
/// list in which no word is empty or holds a space, joined by single spaces,
/// and the empty text for `n == 0`. Which words come out is left open.
#[verifier::external_body]
pub(crate) fn generate_random_words(n: u32) -> (r: String)
    ensures
        words_text(r@, n as nat),
{
    rand_word::new(n as usize)
}

} // verus!
