//! Recognizes the different character sets of the Japanese language.
//!
//! Every predicate is a range test on the Unicode code point. The katakana
//! middle dot is punctuation without a vowel and is left out of the katakana.

use vstd::prelude::*;

verus! {

pub const PUNCTUATION_START: char = '\u{3000}';
pub const PUNCTUATION_END: char = '\u{303f}';
pub const HIRAGANA_START: char = '\u{3040}';
pub const HIRAGANA_END: char = '\u{309f}';
pub const KATAKANA_START: char = '\u{30a0}';
pub const KATAKANA_END: char = '\u{30ff}';
pub const KATAKANA_MIDDLE_DOT: char = '\u{30fb}';
pub const FULL_WIDTH_ROMAN_HALF_WIDTH_KATAKANA_START: char = '\u{ff00}';
pub const FULL_WIDTH_ROMAN_HALF_WIDTH_KATAKANA_END: char = '\u{ffef}';
pub const KANJI_START: char = '\u{4e00}';
pub const KANJI_END: char = '\u{9faf}';
pub const ITERATION_MARK: char = '\u{3005}';
pub const CLOSING_MARK: char = '\u{3006}';

/// The hiragana block, U+3040 to U+309F.
pub open spec fn hiragana(ch: char) -> bool {
    HIRAGANA_START <= ch <= HIRAGANA_END
}

/// The katakana block, U+30A0 to U+30FF, without the middle dot U+30FB.
pub open spec fn katakana(ch: char) -> bool {
    KATAKANA_START <= ch <= KATAKANA_END && ch != KATAKANA_MIDDLE_DOT
}

/// The ideographs from U+4E00 to U+9FAF.
pub open spec fn kanji(ch: char) -> bool {
    KANJI_START <= ch <= KANJI_END
}

/// The punctuation block, U+3000 to U+303F.
pub open spec fn japanese_punctuation(ch: char) -> bool {
    PUNCTUATION_START <= ch <= PUNCTUATION_END
}

/// The iteration mark U+3005 and the closing mark U+3006.
pub open spec fn japanese_special_character(ch: char) -> bool {
    ch == ITERATION_MARK || ch == CLOSING_MARK
}

/// The full-width Roman and half-width katakana forms, U+FF00 to U+FFEF.
pub open spec fn full_width_roman_half_width_katakana(ch: char) -> bool {
    FULL_WIDTH_ROMAN_HALF_WIDTH_KATAKANA_START <= ch
        <= FULL_WIDTH_ROMAN_HALF_WIDTH_KATAKANA_END
}

/// Hiragana or katakana.
pub open spec fn kana(ch: char) -> bool {
    hiragana(ch) || katakana(ch)
}

/// Any character of Japanese text: kana, kanji, punctuation, full-width forms.
pub open spec fn japanese(ch: char) -> bool {
    hiragana(ch) || kanji(ch) || katakana(ch) || japanese_punctuation(ch)
        || full_width_roman_half_width_katakana(ch)
}

/// A character of the scripts proper: kana, kanji, or one of the two special marks.
pub open spec fn japanese_character(ch: char) -> bool {
    hiragana(ch) || kanji(ch) || katakana(ch) || japanese_special_character(ch)
}

/// Every character of the sequence is hiragana.
pub open spec fn all_hiragana(s: Seq<char>) -> bool {
    forall|i: int| 0 <= i < s.len() ==> hiragana(#[trigger] s[i])
}

/// Every character of the sequence is katakana.
pub open spec fn all_katakana(s: Seq<char>) -> bool {
    forall|i: int| 0 <= i < s.len() ==> katakana(#[trigger] s[i])
}

/// Returns `true` if the `char` is Japanese (kana, kanji, Japanese punctuation, etc).
#[verifier::when_used_as_spec(japanese)]
pub fn is_japanese(ch: char) -> (r: bool)
    ensures
        r == japanese(ch),
{
    is_hiragana(ch) || is_kanji(ch) || is_katakana(ch) || is_japanese_punctuation(ch)
        || is_full_width_roman_half_width_katakana(ch)
}

/// Returns `true` if the `char` is a Japanese character (kana, kanji).
#[verifier::when_used_as_spec(japanese_character)]
pub fn is_japanese_character(ch: char) -> (r: bool)
    ensures
        r == japanese_character(ch),
{
    is_hiragana(ch) || is_kanji(ch) || is_katakana(ch) || is_japanese_special_character(ch)
}

/// Returns `true` if the `char` is a Japanese punctuation (3000 - 303f).
#[verifier::when_used_as_spec(japanese_punctuation)]
pub fn is_japanese_punctuation(ch: char) -> (r: bool)
    ensures
        r == japanese_punctuation(ch),
{
    ch >= PUNCTUATION_START && ch <= PUNCTUATION_END
}

/// Returns `true` if the `char` is one of the two Japanese special characters.
#[verifier::when_used_as_spec(japanese_special_character)]
pub fn is_japanese_special_character(ch: char) -> (r: bool)
    ensures
        r == japanese_special_character(ch),
{
    ch == ITERATION_MARK || ch == CLOSING_MARK
}

/// Returns `true` if the `char` is a hiragana character.
#[verifier::when_used_as_spec(hiragana)]
pub fn is_hiragana(ch: char) -> (r: bool)
    ensures
        r == hiragana(ch),
{
    ch >= HIRAGANA_START && ch <= HIRAGANA_END
}

/// Returns `true` if the string is all hiragana; the empty string is.
pub fn is_hiragana_string(str: &str) -> (r: bool)
    ensures
        r == all_hiragana(str@),
        str@.len() == 0 ==> r,
{
    for ch in it: str.chars()
        invariant
            it.seq() == str@,
            forall|i: int| 0 <= i < it.index() ==> hiragana(#[trigger] str@[i]),
    {
        if !is_hiragana(ch) {
            return false;
        }
    }
    true
}

/// Returns `true` if the `char` is a katakana character.
#[verifier::when_used_as_spec(katakana)]
pub fn is_katakana(ch: char) -> (r: bool)
    ensures
        r == katakana(ch),
{
    ch >= KATAKANA_START && ch <= KATAKANA_END && ch != KATAKANA_MIDDLE_DOT
}

/// Returns `true` if the string is all katakana; the empty string is.
pub fn is_katakana_string(str: &str) -> (r: bool)
    ensures
        r == all_katakana(str@),
        str@.len() == 0 ==> r,
{
    for ch in it: str.chars()
        invariant
            it.seq() == str@,
            forall|i: int| 0 <= i < it.index() ==> katakana(#[trigger] str@[i]),
    {
        if !is_katakana(ch) {
            return false;
        }
    }
    true
}

/// Returns `true` if the `char` is a full width roman or half width katakana character.
#[verifier::when_used_as_spec(full_width_roman_half_width_katakana)]
pub fn is_full_width_roman_half_width_katakana(ch: char) -> (r: bool)
    ensures
        r == full_width_roman_half_width_katakana(ch),
{
    ch >= FULL_WIDTH_ROMAN_HALF_WIDTH_KATAKANA_START && ch
        <= FULL_WIDTH_ROMAN_HALF_WIDTH_KATAKANA_END
}

/// Returns `true` if the `char` is a kana character (either hiragana or katakana).
#[verifier::when_used_as_spec(kana)]
pub fn is_kana(ch: char) -> (r: bool)
    ensures
        r == kana(ch),
{
    is_hiragana(ch) || is_katakana(ch)
}

/// Returns `true` if the `char` is a kanji character.
#[verifier::when_used_as_spec(kanji)]
pub fn is_kanji(ch: char) -> (r: bool)
    ensures
        r == kanji(ch),
{
    ch >= KANJI_START && ch <= KANJI_END
}

/// The two kana scripts exclude each other: a kana character is hiragana or
/// katakana, never both.
pub proof fn lemma_kana_scripts_exclusive(ch: char)
    ensures
        !(hiragana(ch) && katakana(ch)),
        kana(ch) ==> (hiragana(ch) != katakana(ch)),
{
}

} // verus!
