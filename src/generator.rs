//! Fresh, unpredictable token strings.
use vstd::prelude::*;
use vstd::string::{StrSliceExecFns, StringExecFns};
use rand::rngs::{OsRng, StdRng};
use rand::{Rng, SeedableRng};

verus! {

/// The characters a token is made of: ASCII letters and digits.
pub const TOKEN_ALPHABET: &'static str = "ABCDEFGHIJKLMNOPQRSTUVWXYZabcdefghijklmnopqrstuvwxyz0123456789";

/// The number of characters in `TOKEN_ALPHABET`.
pub const ALPHABET_LEN: u8 = 62;

/// The number of characters in a token: 32 draws from 62 symbols, over 190
/// bits of randomness.
pub const TOKEN_LEN: usize = 32;

/// Whether `s` has the shape of a generated token.
pub open spec fn is_token(s: Seq<char>) -> bool {
    &&& s.len() == TOKEN_LEN
    &&& forall|i: int| 0 <= i < s.len() ==> TOKEN_ALPHABET@.contains(#[trigger] s[i])
}

#[verifier::external_type_specification]
#[verifier::external_body]
pub struct ExStdRng(StdRng);

/// Relies on rand's `SeedableRng::from_rng` with `OsRng`: a generator
/// seeded from the operating system's entropy source, or `None` where that
/// source reports an error. It does not panic.
#[verifier::external_body]
fn rng_from_os() -> Option<StdRng> {
    StdRng::from_rng(OsRng).ok()
}

/// Relies on rand's `Rng::gen_range`: a value drawn uniformly from
/// `0..bound`, which panics only on an empty range.
#[verifier::external_body]
fn random_below(rng: &mut StdRng, bound: u8) -> (r: u8)
    requires
        bound > 0,
    ensures
        r < bound,
{
    rng.gen_range(0..bound)
}

/// Makes tokens from a cryptographically secure generator that is seeded
/// from the operating system.
pub struct TokenGenerator {
    rng: StdRng,
}

/// The token whose characters are the characters of `TOKEN_ALPHABET` at the
/// positions `draws`, in order.
pub fn token_from_draws(draws: &Vec<u8>) -> (r: String)
    requires
        draws@.len() == TOKEN_LEN,
        forall|i: int| 0 <= i < draws@.len() ==> draws@[i] < ALPHABET_LEN,
    ensures
        r@.len() == TOKEN_LEN,
        forall|i: int| 0 <= i < TOKEN_LEN ==> r@[i] == TOKEN_ALPHABET@[draws@[i] as int],
        is_token(r@),
{
    proof {
        reveal_strlit("ABCDEFGHIJKLMNOPQRSTUVWXYZabcdefghijklmnopqrstuvwxyz0123456789");
    }
    assert(TOKEN_ALPHABET.is_ascii());
    let mut token = String::new();
    let mut i: usize = 0;
    while i < TOKEN_LEN
        invariant
            i <= TOKEN_LEN,
            draws@.len() == TOKEN_LEN,
            forall|j: int| 0 <= j < draws@.len() ==> draws@[j] < ALPHABET_LEN,
            token@.len() == i,
            TOKEN_ALPHABET@.len() == ALPHABET_LEN,
            TOKEN_ALPHABET.is_ascii(),
            forall|j: int| 0 <= j < i ==> #[trigger] token@[j] == TOKEN_ALPHABET@[draws@[j] as int],
        decreases TOKEN_LEN - i,
    {
        let k: u8 = draws[i];
        let piece = TOKEN_ALPHABET.substring_ascii(k as usize, k as usize + 1);
        let ghost before = token@;
        token.append(piece);
        proof {
            assert forall|j: int| 0 <= j < i + 1 implies #[trigger] token@[j]
                == TOKEN_ALPHABET@[draws@[j] as int] by {
                if j < i {
                    assert(token@[j] == before[j]);
                }
            }
        }
        i = i + 1;
    }
    proof {
        assert forall|j: int| 0 <= j < token@.len() implies TOKEN_ALPHABET@.contains(
            #[trigger] token@[j],
        ) by {
            assert(token@[j] == TOKEN_ALPHABET@[draws@[j] as int]);
        }
    }
    token
}

impl TokenGenerator {
    /// A generator seeded from the operating system, or `None` where the
    /// operating system cannot provide entropy.
    pub fn new() -> Option<TokenGenerator> {
        match rng_from_os() {
            Some(rng) => Some(TokenGenerator { rng }),
            None => None,
        }
    }

    /// A new token of `TOKEN_LEN` characters, each drawn independently and
    /// uniformly from `TOKEN_ALPHABET`.
    pub fn generate(&mut self) -> (r: String)
        ensures
            is_token(r@),
    {
        let mut draws: Vec<u8> = Vec::new();
        let mut i: usize = 0;
        while i < TOKEN_LEN
            invariant
                i <= TOKEN_LEN,
                draws@.len() == i,
                forall|j: int| 0 <= j < draws@.len() ==> draws@[j] < ALPHABET_LEN,
            decreases TOKEN_LEN - i,
        {
            draws.push(random_below(&mut self.rng, ALPHABET_LEN));
            i = i + 1;
        }
        token_from_draws(&draws)
    }
}

} // verus!
