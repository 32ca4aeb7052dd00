//! The identifier generator: a uniformly random 32-bit integer, rendered as
//! its decimal digit string and encoded with the URL-safe, padding-free
//! base64 alphabet. The generator does not promise uniqueness; the store's
//! constraint and the coordinator's retry loop enforce that downstream.

use vstd::prelude::*;

use base64::Engine;
use rand::Rng;

use crate::link::is_b64url_char;
use crate::link::is_unreserved_char;
use crate::link::lemma_b64url_char_unreserved;
use crate::link::token_wf;

verus! {

/// The decimal digit string of `n`, as ASCII bytes, most significant first.
pub open spec fn dec_digits(n: nat) -> Seq<u8>
    decreases n,
{
    if n < 10 {
        seq![(n + 48) as u8]
    } else {
        dec_digits(n / 10).push((n % 10 + 48) as u8)
    }
}

/// `10^k`.
pub open spec fn pow10(k: nat) -> nat
    decreases k,
{
    if k == 0 {
        1
    } else {
        10 * pow10((k - 1) as nat)
    }
}

/// A number below `10^k` has at most `k` decimal digits.
proof fn lemma_dec_digits_len(n: nat, k: nat)
    requires
        1 <= k,
        n < pow10(k),
    ensures
        dec_digits(n).len() <= k,
    decreases n,
{
    if n < 10 {
    } else {
        assert(pow10(0) == 1);
        assert(pow10(1) == 10);
        if k == 1 {
            assert(false);
        }
        assert(n < 10 * pow10((k - 1) as nat));
        assert(n / 10 < pow10((k - 1) as nat)) by (nonlinear_arith)
            requires
                n < 10 * pow10((k - 1) as nat),
        ;
        lemma_dec_digits_len(n / 10, (k - 1) as nat);
    }
}

/// Renders `n` as its decimal digit string.
pub fn u32_decimal(n: u32) -> (r: Vec<u8>)
    ensures
        r@ == dec_digits(n as nat),
        1 <= r@.len() <= 10,
    decreases n,
{
    proof {
        reveal_with_fuel(pow10, 11);
        lemma_dec_digits_len(n as nat, 10);
    }
    if n < 10 {
        let mut v: Vec<u8> = Vec::new();
        v.push((n as u8) + 48);
        proof {
            assert(v@ =~= dec_digits(n as nat));
        }
        v
    } else {
        let mut v = u32_decimal(n / 10);
        v.push(((n % 10) as u8) + 48);
        proof {
            assert(v@ =~= dec_digits(n as nat));
        }
        v
    }
}

/// What the URL-safe, padding-free base64 encoding returns for the given
/// bytes.
pub uninterp spec fn b64url_of(bytes: Seq<u8>) -> Seq<char>;

/// Relies on base64's `URL_SAFE_NO_PAD` engine: `Engine::encode` depends on
/// the input bytes alone, emits four characters for every three input bytes
/// (rounded up, without padding), and draws them from the URL-safe alphabet
/// of RFC 4648 (letters, digits, `-` and `_`). `encode` panics only when the
/// encoded length overflows `usize`, which the bound on the input rules out.
#[verifier::external_body]
fn b64url_encode(bytes: &Vec<u8>) -> (r: String)
    requires
        bytes@.len() <= 0xFFFF,
    ensures
        r@ == b64url_of(bytes@),
        r@.len() == (bytes@.len() * 4 + 2) / 3,
        forall|i: int| 0 <= i < r@.len() ==> is_b64url_char(#[trigger] r@[i]),
{
    base64::engine::general_purpose::URL_SAFE_NO_PAD.encode(bytes.as_slice())
}

/// Relies on rand's `thread_rng` and `Rng::gen_range`: the result is drawn
/// from the half-open range below `u32::MAX`, so it is strictly below it;
/// nothing else holds of a random draw. `gen_range` panics only on an empty
/// range, and this range is not empty.
#[verifier::external_body]
fn random_u32() -> (r: u32)
    ensures
        r < 0xFFFF_FFFFu32,
{
    rand::thread_rng().gen_range(0..u32::MAX)
}

/// The token that the generator derives from the integer `n`: the URL-safe
/// base64 encoding of the decimal digit string of `n`. It is 2 to 14
/// characters long (one decimal digit encodes to 2, ten to 14) and made of
/// the URL-safe base64 alphabet alone — so without `=` padding.
pub fn token_of(n: u32) -> (t: String)
    ensures
        t@ == b64url_of(dec_digits(n as nat)),
        token_wf(t@),
        2 <= t@.len() <= 14,
        forall|i: int| 0 <= i < t@.len() ==> is_b64url_char(#[trigger] t@[i]),
{
    let bytes = u32_decimal(n);
    let t = b64url_encode(&bytes);
    proof {
        assert(2 <= t@.len() <= 14) by (nonlinear_arith)
            requires
                t@.len() == (bytes@.len() * 4 + 2) / 3,
                1 <= bytes@.len() <= 10,
        ;
        assert forall|i: int| 0 <= i < t@.len() implies is_unreserved_char(#[trigger] t@[i]) by {
            lemma_b64url_char_unreserved(t@[i]);
        }
    }
    t
}

/// Draws a fresh random token: the encoding, by `token_of`, of some integer
/// below the generator's range. The token is well-formed, 2 to 14
/// characters long and made of the URL-safe base64 alphabet alone; it is
/// not guaranteed unique.
pub fn generate_id() -> (t: String)
    ensures
        token_wf(t@),
        2 <= t@.len() <= 14,
        forall|i: int| 0 <= i < t@.len() ==> is_b64url_char(#[trigger] t@[i]),
        exists|m: nat| m < 0xFFFF_FFFF && t@ == b64url_of(#[trigger] dec_digits(m)),
{
    let r = random_u32();
    let t = token_of(r);
    proof {
        assert((r as nat) < 0xFFFF_FFFF);
        assert(t@ == b64url_of(dec_digits(r as nat)));
    }
    t
}

/// A supplier of candidate identifier tokens. Every supplied token is
/// well-formed; nothing else is promised, and in particular tokens may
/// repeat.
pub trait TokenSource {
    fn next_token(&mut self) -> (t: String)
        ensures
            token_wf(t@),
    ;
}

/// The process-wide random token source used by the running service.
pub struct RandomTokens;

impl TokenSource for RandomTokens {
    fn next_token(&mut self) -> (t: String)
        ensures
            token_wf(t@),
    {
        generate_id()
    }
}

/// A deterministic token source that hands out a fixed script of tokens in
/// order, repeating the last one once the script is spent. It lets a caller
/// force collisions that a random source would produce only by chance.
pub struct ScriptedTokens {
    tokens: Vec<String>,
    next: usize,
}

impl ScriptedTokens {
    #[verifier::type_invariant]
    spec fn inv(self) -> bool {
        &&& self.tokens@.len() > 0
        &&& self.next <= self.tokens@.len()
        &&& forall|i: int| 0 <= i < self.tokens@.len() ==> token_wf(#[trigger] self.tokens@[i]@)
    }

    /// How many tokens have been handed out so far (capped at the script
    /// length).
    pub closed spec fn drawn(self) -> nat {
        self.next as nat
    }

    /// The script itself, as character sequences, in hand-out order.
    pub closed spec fn script(self) -> Seq<Seq<char>> {
        self.tokens@.map_values(|t: String| t@)
    }

    /// Builds a scripted source from the given tokens, refusing an empty
    /// script and scripts holding a token that is not well-formed.
    pub fn new(tokens: Vec<String>) -> (r: Option<ScriptedTokens>)
        ensures
            r is Some <==> tokens@.len() > 0 && (forall|i: int|
                0 <= i < tokens@.len() ==> token_wf(#[trigger] tokens@[i]@)),
            r matches Some(s) ==> s.drawn() == 0 && s.script() == tokens@.map_values(
                |t: String| t@,
            ),
    {
        if tokens.len() == 0 {
            return None;
        }
        let n = tokens.len();
        let mut i: usize = 0;
        while i < n
            invariant
                n == tokens@.len(),
                i <= n,
                forall|j: int| 0 <= j < i ==> token_wf(#[trigger] tokens@[j]@),
            decreases n - i,
        {
            if !crate::link::is_wf_token(&tokens[i]) {
                return None;
            }
            i += 1;
        }
        Some(ScriptedTokens { tokens, next: 0 })
    }

    /// How many tokens have been handed out so far.
    pub fn drawn_count(&self) -> (n: usize)
        ensures
            n == self.drawn(),
    {
        self.next
    }

    /// Hands out the `drawn()`-th token of the script and advances; once
    /// the script is spent, repeats its last token without advancing.
    pub fn next_scripted(&mut self) -> (t: String)
        ensures
            token_wf(t@),
            final(self).script() == old(self).script(),
            old(self).drawn() < old(self).script().len() ==> t@ == old(self).script()[old(self).drawn() as int]
                && final(self).drawn() == old(self).drawn() + 1,
            old(self).drawn() >= old(self).script().len() ==> t@ == old(self).script().last()
                && final(self).drawn() == old(self).drawn(),
    {
        proof {
            use_type_invariant(&*self);
        }
        if self.next < self.tokens.len() {
            let t = self.tokens[self.next].clone();
            self.next = self.next + 1;
            t
        } else {
            self.tokens[self.tokens.len() - 1].clone()
        }
    }
}

impl TokenSource for ScriptedTokens {
    fn next_token(&mut self) -> (t: String)
        ensures
            token_wf(t@),
    {
        self.next_scripted()
    }
}

} // verus!
