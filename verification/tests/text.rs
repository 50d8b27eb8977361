use cuttlestore::text::{begins_with, chars_of, find, piece, same_text, spells};

#[test]
fn chars_are_characters_not_bytes() {
    assert_eq!(chars_of("aßc"), vec!['a', 'ß', 'c']);
    assert_eq!(chars_of(""), Vec::<char>::new());
}

#[test]
fn same_text_compares_every_character() {
    assert!(same_text("in-memory", "in-memory"));
    assert!(!same_text("in-memory", "in-memorY"));
    assert!(!same_text("in-memory", "in-memory "));
    assert!(same_text("", ""));
}

#[test]
fn find_gives_the_first_place_or_the_end() {
    let chars = chars_of("a:b:c");
    assert_eq!(find(&chars, ':', 0), 1);
    assert_eq!(find(&chars, ':', 1), 1);
    assert_eq!(find(&chars, ':', 2), 3);
    assert_eq!(find(&chars, ':', 4), 5);
    assert_eq!(find(&chars, ':', 5), 5);
    assert_eq!(find(&chars, '?', 0), 5);
}

#[test]
fn spells_compares_a_part() {
    let chars = chars_of("username=alice");
    assert!(spells(&chars, 0, 8, "username"));
    assert!(!spells(&chars, 0, 7, "username"));
    assert!(!spells(&chars, 1, 9, "username"));
    assert!(spells(&chars, 9, 14, "alice"));
    assert!(spells(&chars, 3, 3, ""));
}

#[test]
fn begins_with_a_word() {
    let chars = chars_of("redis://host");
    assert!(begins_with(&chars, "redis://"));
    assert!(begins_with(&chars, ""));
    assert!(!begins_with(&chars, "rediss://"));
    assert!(!begins_with(&chars, "redis://host:6379"));
}

#[test]
fn piece_counts_characters() {
    assert_eq!(piece("aßc→e", 1, 4), "ßc→");
    assert_eq!(piece("abc", 0, 3), "abc");
    assert_eq!(piece("abc", 2, 2), "");
}
