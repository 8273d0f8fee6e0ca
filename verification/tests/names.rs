use super_simple_upload::names::{
    compose_name, extension_of, generate_name, name_for_draws, upload_path, BARE_LEN, PREFIX_LEN,
    UPLOADS_DIR,
};
use super_simple_upload::text::{chars_of, string_from};

fn is_word(c: char) -> bool {
    c.is_ascii_alphanumeric() || c == '-' || c == '_' || c == '~'
}

#[test]
fn extension_is_what_follows_the_last_dot() {
    assert_eq!(extension_of("photo.jpg"), Some("jpg".to_string()));
    assert_eq!(extension_of("a.txt"), Some("txt".to_string()));
    assert_eq!(extension_of("archive.tar.gz"), Some("gz".to_string()));
    assert_eq!(extension_of(".bashrc"), Some("bashrc".to_string()));
    assert_eq!(extension_of("dir.d/file"), Some("d/file".to_string()));
}

#[test]
fn name_without_dot_has_no_extension() {
    assert_eq!(extension_of("archive"), None);
    assert_eq!(extension_of(""), None);
    assert_eq!(extension_of("<none>"), None);
    assert_eq!(extension_of("a b c"), None);
}

#[test]
fn name_that_ends_in_a_dot_has_the_empty_extension() {
    assert_eq!(extension_of("archive."), Some(String::new()));
    assert_eq!(extension_of("."), Some(String::new()));
    assert_eq!(extension_of(".."), Some(String::new()));
}

#[test]
fn extension_is_found_among_wide_characters() {
    assert_eq!(extension_of("żółw.png"), Some("png".to_string()));
    assert_eq!(extension_of("写真.日本"), Some("日本".to_string()));
    assert_eq!(extension_of("写真"), None);
}

#[test]
fn compose_name_joins_prefix_and_extension() {
    assert_eq!(compose_name("abcde".to_string(), Some("jpg")), "abcde.jpg");
    assert_eq!(compose_name("abcde".to_string(), Some("")), "abcde.");
    assert_eq!(compose_name("abcdef".to_string(), None), "abcdef");
    assert_eq!(compose_name(String::new(), Some("x")), ".x");
}

#[test]
fn generated_name_keeps_the_extension() {
    for _ in 0..50 {
        let name = generate_name(Some("photo.jpg"));
        let chars: Vec<char> = name.chars().collect();
        assert_eq!(chars.len(), 9);
        assert!(chars[..5].iter().all(|c| is_word(*c)));
        assert!(name.ends_with(".jpg"));
        assert_eq!(extension_of(&name), Some("jpg".to_string()));
    }
}

#[test]
fn generated_name_takes_only_the_last_extension() {
    let name = generate_name(Some("archive.tar.gz"));
    assert_eq!(name.chars().count(), 8);
    assert!(name.ends_with(".gz"));
    assert!(name.chars().take(5).all(is_word));
}

#[test]
fn name_without_extension_has_six_characters() {
    for _ in 0..50 {
        let name = generate_name(Some("archive"));
        assert_eq!(name.chars().count(), 6);
        assert!(name.chars().all(is_word));
        assert!(!name.contains('.'));
    }
}

#[test]
fn part_without_file_name_gets_six_characters() {
    let name = generate_name(None);
    assert_eq!(name.chars().count(), 6);
    assert!(name.chars().all(is_word));
    let name = generate_name(Some(""));
    assert_eq!(name.chars().count(), 6);
    assert!(name.chars().all(is_word));
}

#[test]
fn name_for_a_file_name_that_ends_in_a_dot() {
    let name = generate_name(Some("archive."));
    assert_eq!(name.chars().count(), 6);
    assert!(name.ends_with('.'));
    assert!(name.chars().take(5).all(is_word));
}

#[test]
fn prefix_lengths() {
    assert_eq!(PREFIX_LEN, 5);
    assert_eq!(BARE_LEN, 6);
}

#[test]
fn upload_path_lies_in_the_uploads_directory() {
    assert_eq!(UPLOADS_DIR, "./uploads");
    assert_eq!(upload_path("abcde.jpg"), "./uploads/abcde.jpg");
    assert_eq!(upload_path("abcdef"), "./uploads/abcdef");
    assert_eq!(upload_path(""), "./uploads/");
}

#[test]
fn chars_of_lists_the_characters() {
    assert_eq!(chars_of("a.b"), vec!['a', '.', 'b']);
    assert_eq!(chars_of(""), Vec::<char>::new());
    assert_eq!(chars_of("żółw"), vec!['ż', 'ó', 'ł', 'w']);
}

#[test]
fn string_from_takes_the_tail() {
    let chars = vec!['a', '.', 'b', 'c'];
    assert_eq!(string_from(&chars, 0), "a.bc");
    assert_eq!(string_from(&chars, 2), "bc");
    assert_eq!(string_from(&chars, 4), "");
    assert_eq!(string_from(&chars, 5), "");
    assert_eq!(string_from(&Vec::new(), 0), "");
}

#[test]
fn name_for_draws_is_the_drawn_prefix_and_the_extension() {
    let five = vec![0, 1 << 26, 2 << 26, 3 << 26, 4 << 26];
    assert_eq!(name_for_draws(Some("photo.jpg"), &five), "ABCDE.jpg");
    assert_eq!(name_for_draws(Some("archive.tar.gz"), &five), "ABCDE.gz");
    assert_eq!(name_for_draws(Some("archive."), &five), "ABCDE.");
    let six = vec![26 << 26, 27 << 26, 52 << 26, 53 << 26, 62 << 26, 63 << 26];
    assert_eq!(name_for_draws(Some("archive"), &six), "ab01-_");
    assert_eq!(name_for_draws(None, &six), "ab01-_");
}

#[test]
fn other_draws_give_another_name_for_the_same_file() {
    let first = vec![0, 1 << 26, 2 << 26, 3 << 26, 4 << 26];
    for place in 0..5 {
        let mut second = first.clone();
        second[place] = 63 << 26;
        let a = name_for_draws(Some("photo.jpg"), &first);
        let b = name_for_draws(Some("photo.jpg"), &second);
        assert_ne!(a, b);
        assert!(a.ends_with(".jpg") && b.ends_with(".jpg"));
    }
}

#[test]
fn draws_of_the_same_blocks_give_the_same_name() {
    let first = vec![0, 1 << 26, 2 << 26, 3 << 26, 4 << 26];
    let second = vec![7, (1 << 26) + 9, (2 << 26) + 1, (4 << 26) - 1, (5 << 26) - 1];
    assert_eq!(
        name_for_draws(Some("photo.jpg"), &first),
        name_for_draws(Some("photo.jpg"), &second)
    );
}
