use ropey::Rope;
use woocraft::selection::{is_word_char, line_range, word_range, CharType};

#[test]
fn word_range_groups_unicode_words_and_combining_marks() {
    let text = "alpha na\u{0308}ive пример";

    let naive_range = word_range(&Rope::from(text), text.find("\u{0308}").unwrap()).unwrap();
    assert_eq!(&text[naive_range], "na\u{0308}ive");

    let cyrillic_offset = text.find("мер").unwrap();
    let cyrillic_range = word_range(&Rope::from(text), cyrillic_offset).unwrap();
    assert_eq!(&text[cyrillic_range], "пример");
}

#[test]
fn word_range_groups_whitespace_runs() {
    let text = "foo   bar";
    let range = word_range(&Rope::from(text), text.find("   ").unwrap() + 1).unwrap();

    assert_eq!(&text[range], "   ");
}

#[test]
fn word_range_keeps_punctuation_and_newlines_isolated() {
    let text = "foo,\nbar";

    let comma = text.find(',').unwrap();
    let comma_range = word_range(&Rope::from(text), comma).unwrap();
    assert_eq!(&text[comma_range], ",");

    let newline = text.find('\n').unwrap();
    let newline_range = word_range(&Rope::from(text), newline).unwrap();
    assert_eq!(&text[newline_range], "\n");
}

#[test]
fn word_range_returns_none_past_the_end() {
    assert_eq!(word_range(&Rope::from("foo"), "foo".len()), None);
    assert_eq!(word_range(&Rope::from("foo"), 100), None);
}

#[test]
fn a_byte_inside_a_character_selects_that_characters_word() {
    let text = "ab пр cd";
    let inside = text.find("пр").unwrap() + 1;
    assert_eq!(&text[word_range(&Rope::from(text), inside).unwrap()], "пр");
}

#[test]
fn words_are_scanned_at_most_128_characters_each_way() {
    let text = "x".repeat(300);
    let range = word_range(&Rope::from(text.as_str()), 150).unwrap();
    assert_eq!(range, 22..279);
}

#[test]
fn character_types() {
    assert_eq!(CharType::from('_'), CharType::Word);
    assert_eq!(CharType::from('\r'), CharType::Newline);
    assert_eq!(CharType::from('\u{3000}'), CharType::Whitespace);
    assert_eq!(CharType::from('中'), CharType::Other);
    assert!(is_word_char('ß'));
    assert!(!is_word_char('-'));
    assert!(CharType::Word.is_connectable('é'));
    assert!(!CharType::Other.is_connectable('!'));
    assert!(CharType::Whitespace.is_connectable('\t'));
}

#[test]
fn line_range_clips_offsets_to_the_current_line() {
    let text = "one\n中文\nthree";

    let middle_of_zhong = text.find("中文").unwrap() + 1;
    let middle_range = line_range(&Rope::from(text), middle_of_zhong);
    assert_eq!(&text[middle_range], "中文");

    let tail_range = line_range(&Rope::from(text), usize::MAX);
    assert_eq!(&text[tail_range], "three");
}

#[test]
fn line_range_of_a_line_break_is_the_line_it_ends() {
    let text = "ab\ncd";
    assert_eq!(line_range(&Rope::from(text), 2), 0..2);
    assert_eq!(line_range(&Rope::from(text), 3), 3..5);
    assert_eq!(line_range(&Rope::from(""), 0), 0..0);
}
