//! The alphabet that generated names are drawn from.
//!
//! It has 64 characters, so that six random bits select one of them without
//! bias: the upper-case letters, the lower-case letters, the digits, `-` and
//! `_`, in this order.

use vstd::prelude::*;

verus! {

/// Number of characters in the alphabet.
pub const ALPHABET_LEN: u32 = 64;

/// The alphabet, in index order.
pub const ALPHABET: [char; 64] = [
    'A', 'B', 'C', 'D', 'E', 'F', 'G', 'H', 'I', 'J', 'K', 'L', 'M',
    'N', 'O', 'P', 'Q', 'R', 'S', 'T', 'U', 'V', 'W', 'X', 'Y', 'Z',
    'a', 'b', 'c', 'd', 'e', 'f', 'g', 'h', 'i', 'j', 'k', 'l', 'm',
    'n', 'o', 'p', 'q', 'r', 's', 't', 'u', 'v', 'w', 'x', 'y', 'z',
    '0', '1', '2', '3', '4', '5', '6', '7', '8', '9',
    '-', '_',
];

/// Whether `c` belongs to the alphabet: an ASCII letter, a digit, `-` or `_`.
pub open spec fn is_word_char(c: char) -> bool {
    ||| 'A' <= c <= 'Z'
    ||| 'a' <= c <= 'z'
    ||| '0' <= c <= '9'
    ||| c == '-'
    ||| c == '_'
}

/// Whether every character of `s` belongs to the alphabet.
pub open spec fn all_word_chars(s: Seq<char>) -> bool {
    forall|i: int| 0 <= i < s.len() ==> is_word_char(#[trigger] s[i])
}

/// The character at position `i` of the alphabet, for `0 <= i < 64`.
pub open spec fn word_char(i: int) -> char {
    if i < 26 {
        ('A' as int + i) as char
    } else if i < 52 {
        ('a' as int + (i - 26)) as char
    } else if i < 62 {
        ('0' as int + (i - 52)) as char
    } else if i == 62 {
        '-'
    } else {
        '_'
    }
}

/// The position of `c` in the alphabet, for a `c` that belongs to it.
pub open spec fn word_char_index(c: char) -> int {
    if 'A' <= c <= 'Z' {
        c as int - 'A' as int
    } else if 'a' <= c <= 'z' {
        c as int - 'a' as int + 26
    } else if '0' <= c <= '9' {
        c as int - '0' as int + 52
    } else if c == '-' {
        62
    } else {
        63
    }
}

/// The character at position `index` of the alphabet, or `None` for an
/// index beyond it.
pub open spec fn char_at(index: int) -> Option<char> {
    if 0 <= index < ALPHABET_LEN {
        Some(word_char(index))
    } else {
        None
    }
}

/// Looks up the character at position `index` of the alphabet. There is
/// none at an index of 64 or more.
pub fn alphabet_char(index: u32) -> (r: Option<char>)
    ensures
        r == char_at(index as int),
{
    if index < ALPHABET_LEN {
        proof {
            table_matches_word_char(index as int);
        }
        Some(ALPHABET[index as usize])
    } else {
        None
    }
}

/// The table `ALPHABET` holds `word_char(i)` at each position `i`.
pub proof fn table_matches_word_char(i: int)
    requires
        0 <= i < 64,
    ensures
        ALPHABET[i] == word_char(i),
{
}

/// Every position below 64 holds a character of the alphabet, and
/// `word_char_index` leads back from the character to its position.
pub proof fn word_char_is_in_alphabet(i: int)
    requires
        0 <= i < 64,
    ensures
        is_word_char(word_char(i)),
        word_char_index(word_char(i)) == i,
{
}

/// Every character of the alphabet stands at a position below 64.
pub proof fn alphabet_char_has_position(c: char)
    requires
        is_word_char(c),
    ensures
        0 <= word_char_index(c) < 64,
        word_char(word_char_index(c)) == c,
{
}

/// Two different positions hold two different characters: the alphabet has
/// exactly 64 members.
pub proof fn word_chars_are_distinct(i: int, j: int)
    requires
        0 <= i < 64,
        0 <= j < 64,
        i != j,
    ensures
        word_char(i) != word_char(j),
{
    word_char_is_in_alphabet(i);
    word_char_is_in_alphabet(j);
}

} // verus!
