//! Random strings over the alphabet.
//!
//! A character is chosen by six bits of a 32-bit draw from the thread-local
//! generator. The alphabet has 64 members, so every draw is accepted and
//! each character is chosen by the same number of draws.

use vstd::prelude::*;
use rand::rngs::ThreadRng;
use rand::RngCore;
use crate::alphabet::{
    all_word_chars, alphabet_char, alphabet_char_has_position, char_at, is_word_char, word_char,
    word_char_index, word_char_is_in_alphabet, word_chars_are_distinct,
};

verus! {

/// Number of bits of a draw that select a character.
pub const DRAW_BITS: u32 = 6;

/// rand's handle to the generator of the current thread. Nothing is known of
/// its state.
#[verifier::external_type_specification]
#[verifier::external_body]
pub struct ExThreadRng(ThreadRng);

/// `rand::thread_rng`: the handle to the current thread's generator. The
/// generator is seeded by the system when a thread first asks for it, and
/// the call panics if the system gives no seed. Nothing is stated of the
/// handle.
#[verifier::external_body]
pub(crate) fn thread_rng() -> ThreadRng {
    rand::thread_rng()
}

/// `RngCore::next_u32` on the thread's generator: the next 32 random bits.
/// Any value may come back, so nothing is stated of the result.
#[verifier::external_body]
pub(crate) fn next_u32(rng: &mut ThreadRng) -> u32 {
    rng.next_u32()
}

/// The alphabet position that a draw selects: its six highest bits.
pub open spec fn draw_index(raw: u32) -> int {
    raw as int / 0x400_0000
}

/// The character that a draw selects, or `None` for a draw that has to be
/// rejected because its index lies beyond the alphabet.
pub open spec fn accepted_char(raw: u32) -> Option<char> {
    char_at(draw_index(raw))
}

/// Selects the character for one draw: the six highest bits index the
/// alphabet, and an index beyond the alphabet rejects the draw.
pub fn char_for_draw(raw: u32) -> (r: Option<char>)
    ensures
        r == accepted_char(raw),
{
    let index = raw >> (32 - DRAW_BITS);
    assert(index == raw / 0x400_0000) by (bit_vector)
        requires
            index == raw >> 26u32,
    ;
    alphabet_char(index)
}

/// No draw is rejected, and the character it selects belongs to the
/// alphabet.
pub proof fn every_draw_is_accepted(raw: u32)
    ensures
        accepted_char(raw) is Some,
        is_word_char(accepted_char(raw)->0),
{
    word_char_is_in_alphabet(draw_index(raw));
}

/// The draws that select position `i` are those of one block of 2^26
/// consecutive values. The blocks of the 64 positions are disjoint, of equal
/// size, and cover all 2^32 draws, so that equally likely draws give equally
/// likely characters.
pub proof fn each_char_has_equally_many_draws(raw: u32, i: int)
    requires
        0 <= i < 64,
    ensures
        accepted_char(raw) == Some(word_char(i)) <==> i * 0x400_0000 <= raw < (i + 1) * 0x400_0000,
{
    let d = draw_index(raw);
    word_char_is_in_alphabet(d);
    word_char_is_in_alphabet(i);
    if d != i {
        word_chars_are_distinct(d, i);
    }
}

/// The string that a sequence of draws selects: one character for each
/// draw, in order.
pub open spec fn drawn_string(draws: Seq<u32>) -> Seq<char> {
    Seq::new(draws.len(), |i: int| word_char(draw_index(draws[i])))
}

/// Whether `c` is the character that some draw selects.
pub open spec fn is_drawn_char(c: char) -> bool {
    exists|raw: u32| #[trigger] accepted_char(raw) == Some(c)
}

/// Whether `s` is the string that some sequence of as many draws selects.
pub open spec fn is_drawn_string(s: Seq<char>) -> bool {
    exists|draws: Seq<u32>| draws.len() == s.len() && #[trigger] drawn_string(draws) == s
}

/// The first draw of the block that selects position `i`.
pub open spec fn first_draw_of(i: int) -> u32 {
    (i * 0x400_0000) as u32
}

/// The draws decide the string: two sequences of as many draws select the
/// same string exactly where each two draws at one place select the same
/// position. Draws that differ in the position at one place or more give
/// two different strings.
pub proof fn draws_decide_string(a: Seq<u32>, b: Seq<u32>)
    requires
        a.len() == b.len(),
    ensures
        drawn_string(a) == drawn_string(b) <==> forall|i: int|
            0 <= i < a.len() ==> draw_index(#[trigger] a[i]) == draw_index(b[i]),
{
    if drawn_string(a) == drawn_string(b) {
        assert forall|i: int| 0 <= i < a.len() implies draw_index(#[trigger] a[i]) == draw_index(
            b[i],
        ) by {
            assert(drawn_string(a)[i] == drawn_string(b)[i]);
            if draw_index(a[i]) != draw_index(b[i]) {
                word_chars_are_distinct(draw_index(a[i]), draw_index(b[i]));
            }
        }
    }
    if forall|i: int| 0 <= i < a.len() ==> draw_index(#[trigger] a[i]) == draw_index(b[i]) {
        assert(drawn_string(a) =~= drawn_string(b));
    }
}

/// The strings that draws select are the strings over the alphabet, each
/// of them.
pub proof fn drawn_strings_are_the_words(s: Seq<char>)
    ensures
        is_drawn_string(s) <==> all_word_chars(s),
{
    if is_drawn_string(s) {
        let draws = choose|draws: Seq<u32>| draws.len() == s.len() && #[trigger] drawn_string(
            draws,
        ) == s;
        assert forall|i: int| 0 <= i < s.len() implies is_word_char(#[trigger] s[i]) by {
            assert(s[i] == drawn_string(draws)[i]);
            word_char_is_in_alphabet(draw_index(draws[i]));
        }
    }
    if all_word_chars(s) {
        let draws = Seq::new(s.len(), |i: int| first_draw_of(word_char_index(s[i])));
        assert forall|i: int| 0 <= i < s.len() implies drawn_string(draws)[i] == s[i] by {
            alphabet_char_has_position(s[i]);
        }
        assert(drawn_string(draws) =~= s);
    }
}

/// The string that `draws` select.
pub fn string_for_draws(draws: &Vec<u32>) -> (s: String)
    ensures
        s@ == drawn_string(draws@),
{
    let mut s = String::new();
    let mut i: usize = 0;
    while i < draws.len()
        invariant
            i <= draws.len(),
            s@ == drawn_string(draws@.take(i as int)),
        decreases draws.len() - i,
    {
        proof {
            every_draw_is_accepted(draws[i as int]);
        }
        if let Some(c) = char_for_draw(draws[i]) {
            s.push(c);
        }
        assert(drawn_string(draws@.take(i + 1)) == drawn_string(draws@.take(i as int)).push(
            word_char(draw_index(draws@[i as int])),
        ));
        i = i + 1;
    }
    assert(draws@.take(draws.len() as int) == draws@);
    s
}

/// The distribution of single characters of the alphabet, each as likely as
/// any other.
pub struct WordCharacters;

impl WordCharacters {
    /// Draws one character of the alphabet. Draws are taken from `rng` until
    /// one is accepted; the first one always is. The character is the one
    /// that this draw selects.
    pub fn sample(&self, rng: &mut ThreadRng) -> (c: char)
        ensures
            is_word_char(c),
            is_drawn_char(c),
    {
        loop
            decreases 0nat,
        {
            let raw = next_u32(rng);
            proof {
                every_draw_is_accepted(raw);
            }
            if let Some(c) = char_for_draw(raw) {
                return c;
            }
        }
    }
}

/// A string of `n` characters, each drawn from the alphabet independently of
/// the others: the string that the call's `n` draws select. Two calls may
/// well return the same string: nothing is kept of earlier results.
pub fn generate_random_string(n: usize) -> (s: String)
    ensures
        s@.len() == n,
        all_word_chars(s@),
        is_drawn_string(s@),
{
    let mut rng = thread_rng();
    let mut s = String::new();
    let ghost mut draws = Seq::<u32>::empty();
    let mut i: usize = 0;
    while i < n
        invariant
            i <= n,
            draws.len() == i,
            s@ == drawn_string(draws),
            all_word_chars(s@),
        decreases n - i,
    {
        let c = WordCharacters.sample(&mut rng);
        proof {
            let raw = choose|raw: u32| #[trigger] accepted_char(raw) == Some(c);
            assert(drawn_string(draws.push(raw)) == drawn_string(draws).push(c));
            draws = draws.push(raw);
        }
        s.push(c);
        i = i + 1;
    }
    assert(drawn_string(draws) == s@);
    s
}

} // verus!
