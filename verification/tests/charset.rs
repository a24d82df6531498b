use japanese::charset::{
    is_full_width_roman_half_width_katakana, is_hiragana, is_hiragana_string, is_japanese,
    is_japanese_character, is_japanese_punctuation, is_japanese_special_character, is_kana,
    is_kanji, is_katakana, is_katakana_string,
};

#[test]
fn is_hiragana_test() {
    assert!(is_hiragana_string("きょうだ"));
    assert!(!is_hiragana_string("勉強ダ"));
}

#[test]
fn is_katakana_string_test() {
    assert!(is_katakana_string("チームワーク"));
    assert!(!is_katakana_string("ひトリ"));
    assert!(!is_katakana_string("ア・イ"));
}

#[test]
fn empty_string_is_of_every_script() {
    assert!(is_hiragana_string(""));
    assert!(is_katakana_string(""));
}

#[test]
fn hiragana_range_bounds() {
    assert!(!is_hiragana('\u{303f}'));
    assert!(is_hiragana('\u{3040}'));
    assert!(is_hiragana('\u{309f}'));
    assert!(!is_hiragana('\u{30a0}'));
}

#[test]
fn katakana_range_bounds() {
    assert!(!is_katakana('\u{309f}'));
    assert!(is_katakana('\u{30a0}'));
    assert!(is_katakana('\u{30ff}'));
    assert!(!is_katakana('\u{3100}'));
}

#[test]
fn middle_dot_is_no_katakana() {
    assert!(!is_katakana('・'));
    assert!(!is_kana('・'));
    assert!(!is_japanese_character('・'));
    assert!(is_katakana('ー'));
}

#[test]
fn kanji_range_bounds() {
    assert!(!is_kanji('\u{4dff}'));
    assert!(is_kanji('\u{4e00}'));
    assert!(is_kanji('\u{9faf}'));
    assert!(!is_kanji('\u{9fb0}'));
    assert!(is_kanji('勉'));
}

#[test]
fn punctuation_range_bounds() {
    assert!(!is_japanese_punctuation('\u{2fff}'));
    assert!(is_japanese_punctuation('\u{3000}'));
    assert!(is_japanese_punctuation('\u{303f}'));
    assert!(!is_japanese_punctuation('\u{3040}'));
    assert!(is_japanese_punctuation('。'));
}

#[test]
fn special_characters() {
    assert!(is_japanese_special_character('々'));
    assert!(is_japanese_special_character('〆'));
    assert!(!is_japanese_special_character('\u{3004}'));
    assert!(!is_japanese_special_character('\u{3007}'));
    assert!(!is_japanese_special_character('あ'));
}

#[test]
fn full_width_range_bounds() {
    assert!(!is_full_width_roman_half_width_katakana('\u{feff}'));
    assert!(is_full_width_roman_half_width_katakana('\u{ff00}'));
    assert!(is_full_width_roman_half_width_katakana('\u{ffef}'));
    assert!(!is_full_width_roman_half_width_katakana('\u{fff0}'));
    assert!(is_full_width_roman_half_width_katakana('Ａ'));
    assert!(is_full_width_roman_half_width_katakana('ｱ'));
}

#[test]
fn kana_is_one_script_or_the_other() {
    for ch in ['あ', 'ん', 'ア', 'ン', 'ー', '・', '勉', 'a', '。'] {
        assert_eq!(is_kana(ch), is_hiragana(ch) || is_katakana(ch));
        assert!(!(is_hiragana(ch) && is_katakana(ch)));
    }
    assert!(is_kana('あ'));
    assert!(is_kana('ア'));
    assert!(!is_kana('勉'));
}

#[test]
fn japanese_takes_punctuation_and_full_width() {
    assert!(is_japanese('あ'));
    assert!(is_japanese('ア'));
    assert!(is_japanese('勉'));
    assert!(is_japanese('。'));
    assert!(is_japanese('Ａ'));
    assert!(!is_japanese('a'));
}

#[test]
fn japanese_character_takes_the_scripts_and_the_marks() {
    assert!(is_japanese_character('あ'));
    assert!(is_japanese_character('ア'));
    assert!(is_japanese_character('勉'));
    assert!(is_japanese_character('々'));
    assert!(is_japanese_character('〆'));
    assert!(!is_japanese_character('。'));
    assert!(!is_japanese_character('Ａ'));
    assert!(!is_japanese_character('a'));
}
