use japanese::charset::{is_hiragana, is_katakana};
use japanese::converter::{
    convert_hiragana_to_katakana, convert_hiragana_to_katakana_string,
    convert_katakana_to_hiragana, convert_katakana_to_hiragana_string, convert_to_vowel_in_stem,
    get_map_for_hiragana, get_prolonged_hiragana_for_vowel, get_vowel_for_hiragana,
    try_convert_to_vowel_in_stem, HIRAGANA_KATAKANA_DIFF,
};
use japanese::table::{Row, TableRegistry};
use japanese::Vowel;

fn stem(hiragana: char, to_vowel: Vowel) -> char {
    convert_to_vowel_in_stem(&TableRegistry::new(), hiragana, to_vowel)
}

fn to_hiragana(katakana: &str) -> String {
    convert_katakana_to_hiragana_string(&TableRegistry::new(), katakana)
}

#[test]
fn convert_vowel_in_stem_test() {
    assert_eq!('い', stem('わ', Vowel::I));
    assert_eq!('わ', stem('い', Vowel::A));
    assert_eq!('か', stem('き', Vowel::A));
    assert_eq!('せ', stem('し', Vowel::E));
}

#[test]
fn convert_vowel_in_stem_wa_row() {
    assert_eq!('わ', stem('わ', Vowel::A));
    assert_eq!('う', stem('わ', Vowel::U));
    assert_eq!('え', stem('わ', Vowel::E));
    assert_eq!('お', stem('わ', Vowel::O));
    assert_eq!('わ', stem('あ', Vowel::A));
    assert_eq!('お', stem('あ', Vowel::O));
}

#[test]
fn convert_vowel_in_stem_small_vowels_keep_their_a() {
    assert_eq!('ぁ', stem('ぃ', Vowel::A));
    assert_eq!('ぉ', stem('ぁ', Vowel::O));
}

#[test]
fn convert_vowel_in_stem_y_rows() {
    assert_eq!('よ', stem('や', Vowel::O));
    assert_eq!('ゃ', stem('ゅ', Vowel::A));
    let tables = TableRegistry::new();
    assert_eq!(None, try_convert_to_vowel_in_stem(&tables, 'や', Vowel::I));
    assert_eq!(None, try_convert_to_vowel_in_stem(&tables, 'ょ', Vowel::E));
    assert_eq!(Some('ゆ'), try_convert_to_vowel_in_stem(&tables, 'や', Vowel::U));
}

#[test]
fn convert_vowel_in_stem_returns_same_char_if_invalid() {
    assert_eq!('a', stem('a', Vowel::A));
    assert_eq!('キ', stem('キ', Vowel::A));
    assert_eq!('勉', stem('勉', Vowel::O));
    // Hiragana that no row holds.
    assert_eq!('ん', stem('ん', Vowel::A));
    assert_eq!('っ', stem('っ', Vowel::I));
    assert_eq!('を', stem('を', Vowel::E));
}

#[test]
fn get_vowel_for_hiragana_test() {
    let tables = TableRegistry::new();
    assert_eq!(Some(Vowel::A), get_vowel_for_hiragana(&tables, 'あ'));
    assert_eq!(Some(Vowel::I), get_vowel_for_hiragana(&tables, 'き'));
    assert_eq!(Some(Vowel::U), get_vowel_for_hiragana(&tables, 'ぶ'));
    assert_eq!(Some(Vowel::E), get_vowel_for_hiragana(&tables, 'ぇ'));
    assert_eq!(Some(Vowel::O), get_vowel_for_hiragana(&tables, 'ょ'));
    assert_eq!(None, get_vowel_for_hiragana(&tables, 'わ'));
    assert_eq!(None, get_vowel_for_hiragana(&tables, 'ん'));
    assert_eq!(None, get_vowel_for_hiragana(&tables, 'カ'));
    assert_eq!(None, get_vowel_for_hiragana(&tables, 'a'));
}

#[test]
fn get_map_for_hiragana_test() {
    let tables = TableRegistry::new();
    assert_eq!(Some(Row::Vowel), get_map_for_hiragana(&tables, 'お').map(|m| m.row()));
    assert_eq!(Some(Row::SmallVowel), get_map_for_hiragana(&tables, 'ぁ').map(|m| m.row()));
    assert_eq!(Some(Row::P), get_map_for_hiragana(&tables, 'ぽ').map(|m| m.row()));
    assert_eq!(Some(Row::SmallY), get_map_for_hiragana(&tables, 'ゅ').map(|m| m.row()));
    assert!(get_map_for_hiragana(&tables, 'わ').is_none());
    assert!(get_map_for_hiragana(&tables, 'ア').is_none());
}

#[test]
fn convert_katakana_to_hiragana_returns_same_char_if_invalid() {
    assert_eq!('a', convert_katakana_to_hiragana('a'));
}

#[test]
fn convert_hiragana_to_katakana_returns_same_char_if_invalid() {
    assert_eq!('a', convert_hiragana_to_katakana('a'));
}

#[test]
fn convert_single_chars() {
    assert_eq!(0x60, HIRAGANA_KATAKANA_DIFF);
    assert_eq!('あ', convert_katakana_to_hiragana('ア'));
    assert_eq!('ん', convert_katakana_to_hiragana('ン'));
    assert_eq!('ア', convert_hiragana_to_katakana('あ'));
    assert_eq!('ン', convert_hiragana_to_katakana('ん'));
    assert_eq!('\u{3040}', convert_katakana_to_hiragana('\u{30a0}'));
    assert_eq!('\u{309f}', convert_katakana_to_hiragana('\u{30ff}'));
    assert_eq!('\u{30ff}', convert_hiragana_to_katakana('\u{309f}'));
}

#[test]
fn convert_single_chars_leniency() {
    for ch in ['a', '勉', '。', 'Ａ', '・', '\u{0}', '\u{10ffff}'] {
        assert_eq!(ch, convert_katakana_to_hiragana(ch));
        assert_eq!(ch, convert_hiragana_to_katakana(ch));
    }
    assert_eq!('あ', convert_katakana_to_hiragana('あ'));
    assert_eq!('ア', convert_hiragana_to_katakana('ア'));
}

#[test]
fn hiragana_round_trip() {
    for code in 0x3040u32..=0x309f {
        let ch = char::from_u32(code).unwrap();
        assert!(is_hiragana(ch));
        if code != 0x309b {
            let katakana = convert_hiragana_to_katakana(ch);
            assert!(is_katakana(katakana));
            assert_eq!(ch, convert_katakana_to_hiragana(katakana));
        }
    }
    // U+309B lands on the middle dot, which is not converted back.
    assert_eq!('・', convert_hiragana_to_katakana('\u{309b}'));
    assert_eq!('・', convert_katakana_to_hiragana('・'));
}

#[test]
fn katakana_round_trip() {
    for code in 0x30a0u32..=0x30ff {
        let ch = char::from_u32(code).unwrap();
        if is_katakana(ch) {
            let hiragana = convert_katakana_to_hiragana(ch);
            assert!(is_hiragana(hiragana));
            assert_eq!(ch, convert_hiragana_to_katakana(hiragana));
        }
    }
}

#[test]
fn get_prolonged_hiragana_for_vowel_test() {
    assert_eq!('あ', get_prolonged_hiragana_for_vowel(Vowel::A));
    assert_eq!('い', get_prolonged_hiragana_for_vowel(Vowel::I));
    assert_eq!('う', get_prolonged_hiragana_for_vowel(Vowel::U));
    assert_eq!('い', get_prolonged_hiragana_for_vowel(Vowel::E));
    assert_eq!('う', get_prolonged_hiragana_for_vowel(Vowel::O));
}

#[test]
fn convert_katakana_to_hiragana_string_test() {
    assert_eq!("もん", to_hiragana("モン"));
    assert_eq!("きようび", to_hiragana("キヨウビ"));
    assert_eq!("きょうび", to_hiragana("キョウビ"));
    assert_eq!("きようび", to_hiragana("キヨービ"));
    assert_eq!("きょうび", to_hiragana("キョービ"));
    assert_eq!("きいぷ", to_hiragana("キープ"));
    assert_eq!("ちいむわあく", to_hiragana("チームワーク"));
    assert_eq!("をお", to_hiragana("ヲー"));
    assert_eq!("ー", to_hiragana("ー"));
}

#[test]
fn convert_katakana_to_hiragana_string_does_not_panic() {
    to_hiragana("チームワーク");
    to_hiragana("ヲー");
    to_hiragana("ー");
}

#[test]
fn convert_katakana_to_hiragana_string_prolonged_marks() {
    // Long E is written with い, long O with う.
    assert_eq!("けい", to_hiragana("ケー"));
    assert_eq!("こう", to_hiragana("コー"));
    assert_eq!("ゎぁ", to_hiragana("ヮー"));
    assert_eq!("わあ", to_hiragana("ワー"));
    // The mark looks at the char before it as it was, not as it became.
    assert_eq!("かあー", to_hiragana("カーー"));
    // A hiragana before the mark has its vowel too.
    assert_eq!("かあ", to_hiragana("かー"));
    // No vowel is known for what stands before: the mark stays.
    assert_eq!("んー", to_hiragana("ンー"));
    assert_eq!("aー", to_hiragana("aー"));
    assert_eq!("勉ー", to_hiragana("勉ー"));
}

#[test]
fn convert_katakana_to_hiragana_string_keeps_other_chars() {
    assert_eq!("", to_hiragana(""));
    assert_eq!("abc", to_hiragana("abc"));
    assert_eq!("ひとり", to_hiragana("ひトリ"));
    assert_eq!("勉強だ。", to_hiragana("勉強ダ。"));
    assert_eq!("あ・い", to_hiragana("ア・イ"));
    assert_eq!(6, to_hiragana("チームワーク").chars().count());
}

#[test]
fn convert_hiragana_to_katakana_string_test() {
    assert_eq!("モン", convert_hiragana_to_katakana_string("もん"));
    assert_eq!("ヒトリ", convert_hiragana_to_katakana_string("ひトリ"));
    assert_eq!("キヨウビ", convert_hiragana_to_katakana_string("きようび"));
}

#[test]
fn convert_hiragana_to_katakana_string_keeps_other_chars() {
    assert_eq!("", convert_hiragana_to_katakana_string(""));
    assert_eq!("abc", convert_hiragana_to_katakana_string("abc"));
    assert_eq!("勉強ダ。", convert_hiragana_to_katakana_string("勉強だ。"));
    assert_eq!("キョウビ", convert_hiragana_to_katakana_string("きょうび"));
    assert_eq!("カー", convert_hiragana_to_katakana_string("かー"));
}
