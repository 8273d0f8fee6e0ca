use super_simple_upload::alphabet::{alphabet_char, ALPHABET, ALPHABET_LEN};
use super_simple_upload::generator::{
    char_for_draw, generate_random_string, string_for_draws, WordCharacters,
};

const EXPECTED: &str = "ABCDEFGHIJKLMNOPQRSTUVWXYZabcdefghijklmnopqrstuvwxyz0123456789-_";

#[test]
fn alphabet_has_64_distinct_characters() {
    assert_eq!(ALPHABET_LEN, 64);
    assert_eq!(ALPHABET.len(), 64);
    let expected: Vec<char> = EXPECTED.chars().collect();
    assert_eq!(ALPHABET.to_vec(), expected);
    for i in 0..64 {
        for j in 0..i {
            assert_ne!(ALPHABET[i], ALPHABET[j]);
        }
    }
}

#[test]
fn alphabet_char_reads_the_table() {
    let expected: Vec<char> = EXPECTED.chars().collect();
    for i in 0..64u32 {
        assert_eq!(alphabet_char(i), Some(expected[i as usize]));
    }
    assert_eq!(alphabet_char(0), Some('A'));
    assert_eq!(alphabet_char(25), Some('Z'));
    assert_eq!(alphabet_char(26), Some('a'));
    assert_eq!(alphabet_char(51), Some('z'));
    assert_eq!(alphabet_char(52), Some('0'));
    assert_eq!(alphabet_char(61), Some('9'));
    assert_eq!(alphabet_char(62), Some('-'));
    assert_eq!(alphabet_char(63), Some('_'));
}

#[test]
fn alphabet_ends_at_64() {
    assert_eq!(alphabet_char(64), None);
    assert_eq!(alphabet_char(65), None);
    assert_eq!(alphabet_char(u32::MAX), None);
}

#[test]
fn char_for_draw_uses_the_six_highest_bits() {
    assert_eq!(char_for_draw(0), Some('A'));
    assert_eq!(char_for_draw(1), Some('A'));
    assert_eq!(char_for_draw(0x03FF_FFFF), Some('A'));
    assert_eq!(char_for_draw(0x0400_0000), Some('B'));
    assert_eq!(char_for_draw(25 << 26), Some('Z'));
    assert_eq!(char_for_draw(26 << 26), Some('a'));
    assert_eq!(char_for_draw((51 << 26) + 12345), Some('z'));
    assert_eq!(char_for_draw(52 << 26), Some('0'));
    assert_eq!(char_for_draw(61 << 26), Some('9'));
    assert_eq!(char_for_draw(62 << 26), Some('-'));
    assert_eq!(char_for_draw(63 << 26), Some('_'));
    assert_eq!(char_for_draw(u32::MAX), Some('_'));
}

#[test]
fn char_for_draw_gives_each_character_one_block_of_draws() {
    let expected: Vec<char> = EXPECTED.chars().collect();
    for i in 0..64u32 {
        let low = i << 26;
        let high = low + 0x03FF_FFFF;
        assert_eq!(char_for_draw(low), Some(expected[i as usize]));
        assert_eq!(char_for_draw(high), Some(expected[i as usize]));
        assert_eq!(char_for_draw(low + 0x0200_0000), Some(expected[i as usize]));
    }
}

#[test]
fn sample_gives_characters_of_the_alphabet() {
    let mut rng = rand::thread_rng();
    for _ in 0..1000 {
        let c = WordCharacters.sample(&mut rng);
        assert!(EXPECTED.contains(c));
    }
}

#[test]
fn generated_string_has_the_length_asked_for() {
    for n in [0usize, 1, 2, 5, 6, 7, 64, 1000] {
        let s = generate_random_string(n);
        assert_eq!(s.chars().count(), n);
        assert_eq!(s.len(), n);
    }
}

#[test]
fn generated_string_holds_only_the_alphabet() {
    let s = generate_random_string(10_000);
    for c in s.chars() {
        assert!(EXPECTED.contains(c));
        assert!(c.is_ascii_alphanumeric() || c == '-' || c == '_');
    }
    assert!(!s.contains('~'));
    assert!(!s.contains('.'));
    assert!(!s.contains('/'));
}

#[test]
fn generated_string_of_length_zero_is_empty() {
    assert_eq!(generate_random_string(0), "");
}

#[test]
fn generated_characters_are_evenly_spread() {
    let per_char = 2000usize;
    let s = generate_random_string(64 * per_char);
    let mut counts = [0usize; 64];
    for c in s.chars() {
        let i = EXPECTED.find(c).unwrap();
        counts[i] += 1;
    }
    for (i, count) in counts.iter().enumerate() {
        assert!(
            *count > per_char * 3 / 4 && *count < per_char * 5 / 4,
            "character {} came {} times",
            i,
            count
        );
    }
}

#[test]
fn generated_strings_differ() {
    let a = generate_random_string(32);
    let b = generate_random_string(32);
    assert_ne!(a, b);
}

#[test]
fn string_for_draws_takes_one_character_for_each_draw() {
    assert_eq!(string_for_draws(&Vec::new()), "");
    assert_eq!(string_for_draws(&vec![0]), "A");
    assert_eq!(string_for_draws(&vec![0, 1 << 26, 2 << 26]), "ABC");
    assert_eq!(
        string_for_draws(&vec![25 << 26, 26 << 26, 52 << 26, 62 << 26, 63 << 26, u32::MAX]),
        "Za0-__"
    );
    let all: Vec<u32> = (0..64u32).map(|i| (i << 26) + 12345).collect();
    assert_eq!(string_for_draws(&all), EXPECTED);
}

#[test]
fn draws_of_one_block_give_the_same_string() {
    let a = vec![0x0400_0000, 0x0800_0001, 0xFC00_0000];
    let b = vec![0x07FF_FFFF, 0x0BFF_FFFF, 0xFFFF_FFFF];
    assert_eq!(string_for_draws(&a), string_for_draws(&b));
    assert_eq!(string_for_draws(&a), "BC_");
}

#[test]
fn draws_of_other_blocks_give_another_string() {
    let a = vec![1 << 26, 2 << 26, 3 << 26, 4 << 26, 5 << 26];
    for place in 0..5 {
        let mut b = a.clone();
        b[place] = 40 << 26;
        assert_ne!(string_for_draws(&a), string_for_draws(&b));
        assert_eq!(string_for_draws(&a).len(), string_for_draws(&b).len());
    }
}
