//! Converts between the character sets of the Japanese language.
//!
//! ### Leniency
//!
//! A conversion hands back the same `char` where it cannot convert: a `char`
//! that is not of the script it expects is returned as it is, and a string
//! keeps such chars in their places.

use vstd::prelude::*;
use crate::charset::{hiragana, is_hiragana, is_katakana, katakana};
use crate::table::{
    first_row_from, lemma_row_of_holds, lemma_row_two_way, lemma_rows_disjoint, row_at, row_of,
    standard_row, vowel_of, Row, TableRegistry, TwoWayMap, ROW_COUNT,
};
use crate::vowel::Vowel;

verus! {

/// The distance from a hiragana to its katakana: U+30A1 less U+3041.
pub const HIRAGANA_KATAKANA_DIFF: u32 = 0x30a1 - 0x3041;

/// `char::from_u32` of std: the `char` with the given code where that code is
/// a Unicode scalar value (not above U+10FFFF and no surrogate), else `None`.
pub assume_specification[ char::from_u32 ](i: u32) -> (r: Option<char>)
    ensures
        r == (if i <= 0xd7ff || 0xe000 <= i <= 0x10ffff {
            Some(i as char)
        } else {
            None
        }),
;

/// `String::push` of std: appends the one `char` to the end of the string.
pub assume_specification[ String::push ](s: &mut String, ch: char)
    ensures
        final(s)@ == old(s)@.push(ch),
;

/// The hiragana of a katakana; any other `char` itself.
pub open spec fn katakana_to_hiragana(ch: char) -> char {
    if katakana(ch) {
        ((ch as u32) - HIRAGANA_KATAKANA_DIFF) as char
    } else {
        ch
    }
}

/// The katakana of a hiragana; any other `char` itself.
pub open spec fn hiragana_to_katakana(ch: char) -> char {
    if hiragana(ch) {
        ((ch as u32) + HIRAGANA_KATAKANA_DIFF) as char
    } else {
        ch
    }
}

/// The hiragana that prolongs a syllable of the given vowel: a long E is
/// written with い and a long O with う.
pub open spec fn prolonged_glyph(vowel: Vowel) -> char {
    match vowel {
        Vowel::A => 'あ',
        Vowel::I => 'い',
        Vowel::U => 'う',
        Vowel::E => 'い',
        Vowel::O => 'う',
    }
}

/// What the prolonged sound mark becomes after the katakana `previous`. The
/// three of ワ, ヮ and ヲ go their own way; any other gives the glyph for the
/// vowel of its hiragana, and the mark stays where that has no vowel.
pub open spec fn prolonged_after(previous: char) -> char {
    if previous == 'ワ' {
        'あ'
    } else if previous == 'ヮ' {
        'ぁ'
    } else if previous == 'ヲ' {
        'お'
    } else {
        match vowel_of(katakana_to_hiragana(previous)) {
            Some(vowel) => prolonged_glyph(vowel),
            None => 'ー',
        }
    }
}

/// The hiragana for place `i` of the text `s`: it depends on the `char` at
/// that place and, for the prolonged sound mark, on the one before it.
pub open spec fn hiragana_at(s: Seq<char>, i: int) -> char {
    let ch = s[i];
    if !katakana(ch) {
        ch
    } else if ch == 'ー' {
        if i == 0 {
            ch
        } else {
            prolonged_after(s[i - 1])
        }
    } else {
        katakana_to_hiragana(ch)
    }
}

/// The text `s` with each katakana turned to hiragana and each prolonged
/// sound mark resolved.
pub open spec fn katakana_to_hiragana_seq(s: Seq<char>) -> Seq<char> {
    Seq::new(s.len(), |i: int| hiragana_at(s, i))
}

/// The text `s` with each hiragana turned to katakana.
pub open spec fn hiragana_to_katakana_seq(s: Seq<char>) -> Seq<char> {
    Seq::new(s.len(), |i: int| hiragana_to_katakana(s[i]))
}

/// The row in which a stem's last glyph changes its vowel: わ changes in the
/// row of the plain vowels, any other glyph in its own row.
pub open spec fn stem_row(glyph: char) -> Option<Row> {
    if glyph == 'わ' {
        Some(Row::Vowel)
    } else {
        row_of(glyph)
    }
}

/// The glyph of a stem with its vowel changed to `to_vowel`. A `char` that is no
/// hiragana, or has no row, stays. In the row of the plain vowels the glyph for
/// A is わ. `None` where the row has no glyph for `to_vowel`.
pub open spec fn stem_glyph(glyph: char, to_vowel: Vowel) -> Option<char> {
    if !hiragana(glyph) {
        Some(glyph)
    } else {
        match stem_row(glyph) {
            None => Some(glyph),
            Some(row) => if row == Row::Vowel && to_vowel == Vowel::A {
                Some('わ')
            } else {
                standard_row(row).glyph(to_vowel)
            },
        }
    }
}

/// Finds the row of the given hiragana `char`: the first of the registry that holds it.
pub fn get_map_for_hiragana<'a>(tables: &'a TableRegistry, hiragana: char) -> (r: Option<
    &'a TwoWayMap,
>)
    ensures
        match r {
            Some(map) => row_of(hiragana) == Some(map.spec_row()) && map@ == standard_row(
                map.spec_row(),
            ),
            None => row_of(hiragana) is None,
        },
{
    let maps = tables.tables();
    let mut i: usize = 0;
    while i < maps.len()
        invariant
            i <= ROW_COUNT,
            maps@.len() == ROW_COUNT,
            forall|j: int|
                0 <= j < ROW_COUNT ==> (#[trigger] maps@[j]).spec_row() == row_at(j) && maps@[j]@
                    == standard_row(row_at(j)),
            row_of(hiragana) == first_row_from(hiragana, i as int),
        decreases ROW_COUNT - i,
    {
        let map = &maps[i];
        if map.contains(hiragana) {
            return Some(map);
        }
        i += 1;
    }
    None
}

/// Gets the `Vowel` of the given hiragana `char`, or `None` where no row holds it.
pub fn get_vowel_for_hiragana(tables: &TableRegistry, hiragana: char) -> (r: Option<Vowel>)
    ensures
        r == vowel_of(hiragana),
{
    match get_map_for_hiragana(tables, hiragana) {
        Some(map) => map.vowel_of(hiragana),
        None => None,
    }
}

/// Converts a hiragana `char` to another [Vowel] as a stem's last glyph
/// changes, or returns `None` where its row has no glyph for that vowel.
///
/// わ is handled on its own: it changes in the row of the plain vowels, and a
/// plain vowel changed to `Vowel::A` gives わ.
///
/// A `char` that is no hiragana, or that no row holds, is returned as it is.
pub fn try_convert_to_vowel_in_stem(tables: &TableRegistry, hiragana: char, to_vowel: Vowel) -> (r:
    Option<char>)
    ensures
        r == stem_glyph(hiragana, to_vowel),
{
    if !is_hiragana(hiragana) {
        return Some(hiragana);
    }
    let is_special_wa = hiragana == 'わ';

    let map_option = if is_special_wa {
        Some(tables.vowel_row())
    } else {
        get_map_for_hiragana(tables, hiragana)
    };
    let map = match map_option {
        Some(v) => v,
        None => return Some(hiragana),
    };

    if map.row() == Row::Vowel && to_vowel == Vowel::A {
        return Some('わ');
    }
    map.glyph_of(to_vowel)
}

/// Converts a hiragana `char` to another [Vowel] as a stem's last glyph changes.
///
/// The row of the `char` must have a glyph for the vowel: the two rows of Y
/// have none for I and E, and to ask for one is an error of the caller.
pub fn convert_to_vowel_in_stem(tables: &TableRegistry, hiragana: char, to_vowel: Vowel) -> (r:
    char)
    requires
        stem_glyph(hiragana, to_vowel) is Some,
    ensures
        Some(r) == stem_glyph(hiragana, to_vowel),
{
    try_convert_to_vowel_in_stem(tables, hiragana, to_vowel).unwrap()
}

/// Converts the given katakana `char` to hiragana.
pub fn convert_katakana_to_hiragana(katakana: char) -> (r: char)
    ensures
        r == katakana_to_hiragana(katakana),
{
    if !is_katakana(katakana) {
        return katakana;
    }
    char::from_u32(katakana as u32 - HIRAGANA_KATAKANA_DIFF).unwrap_or(katakana)
}

/// Converts the given hiragana `char` to katakana.
pub fn convert_hiragana_to_katakana(hiragana: char) -> (r: char)
    ensures
        r == hiragana_to_katakana(hiragana),
{
    if !is_hiragana(hiragana) {
        return hiragana;
    }
    char::from_u32(hiragana as u32 + HIRAGANA_KATAKANA_DIFF).unwrap_or(hiragana)
}

/// Gets the hiragana `char` that prolongs a syllable of the given `Vowel`.
pub fn get_prolonged_hiragana_for_vowel(vowel: Vowel) -> (r: char)
    ensures
        r == prolonged_glyph(vowel),
{
    match vowel {
        Vowel::A => 'あ',
        Vowel::I => 'い',
        Vowel::U => 'う',
        Vowel::E => 'い',
        Vowel::O => 'う',
    }
}

/// Converts the given katakana string to hiragana.
///
/// This takes care of 'ー' used in prolonged voices. i.e キョービ -> きょうび
pub fn convert_katakana_to_hiragana_string(tables: &TableRegistry, katakana: &str) -> (r: String)
    ensures
        r@ == katakana_to_hiragana_seq(katakana@),
        r@.len() == katakana@.len(),
{
    let mut hiragana_string = String::new();
    let mut previous: Option<char> = None;

    for ch in it: katakana.chars()
        invariant
            it.seq() == katakana@,
            hiragana_string@.len() == it.index(),
            forall|j: int|
                0 <= j < it.index() ==> #[trigger] hiragana_string@[j] == hiragana_at(
                    katakana@,
                    j,
                ),
            previous == (if it.index() == 0 {
                None
            } else {
                Some(katakana@[it.index() - 1])
            }),
    {
        let hiragana_ch = if is_hiragana(ch) || !is_katakana(ch) {
            ch
        } else if ch == 'ー' {
            match previous {
                // Nothing before it, no need to convert.
                None => ch,
                // ワ, ヮ and ヲ are prolonged in their own way.
                Some('ワ') => 'あ',
                Some('ヮ') => 'ぁ',
                Some('ヲ') => 'お',
                Some(previous_ch) => {
                    let vowel = get_vowel_for_hiragana(
                        tables,
                        convert_katakana_to_hiragana(previous_ch),
                    );
                    match vowel {
                        Some(vowel) => get_prolonged_hiragana_for_vowel(vowel),
                        // No vowel is known for it: the mark stays.
                        None => ch,
                    }
                },
            }
        } else {
            convert_katakana_to_hiragana(ch)
        };
        hiragana_string.push(hiragana_ch);
        previous = Some(ch);
    }
    assert(hiragana_string@ =~= katakana_to_hiragana_seq(katakana@));
    hiragana_string
}

/// Converts the given hiragana string to katakana.
///
/// This **does not** change long voices into 'ー'. i.e きょうび -> キョウビ
pub fn convert_hiragana_to_katakana_string(hiragana: &str) -> (r: String)
    ensures
        r@ == hiragana_to_katakana_seq(hiragana@),
        r@.len() == hiragana@.len(),
{
    let mut katakana_string = String::new();

    for ch in it: hiragana.chars()
        invariant
            it.seq() == hiragana@,
            katakana_string@.len() == it.index(),
            forall|j: int|
                0 <= j < it.index() ==> #[trigger] katakana_string@[j] == hiragana_to_katakana(
                    hiragana@[j],
                ),
    {
        let katakana_ch = if is_katakana(ch) || !is_hiragana(ch) {
            ch
        } else {
            convert_hiragana_to_katakana(ch)
        };
        katakana_string.push(katakana_ch);
    }
    assert(katakana_string@ =~= hiragana_to_katakana_seq(hiragana@));
    katakana_string
}

/// A `char` that is not of the script that a conversion expects comes back as
/// it is, from each of the conversions of a single `char`.
pub proof fn lemma_conversions_lenient(ch: char, to_vowel: Vowel)
    ensures
        !katakana(ch) ==> katakana_to_hiragana(ch) == ch,
        !hiragana(ch) ==> hiragana_to_katakana(ch) == ch,
        !hiragana(ch) ==> stem_glyph(ch, to_vowel) == Some(ch),
{
}

/// A text keeps each `char` that is not of the script that the conversion
/// expects, at its place; a text that holds none of that script stays as it is.
pub proof fn lemma_text_conversions_lenient(s: Seq<char>)
    ensures
        forall|i: int|
            0 <= i < s.len() && !katakana(s[i]) ==> #[trigger] katakana_to_hiragana_seq(s)[i]
                == s[i],
        forall|i: int|
            0 <= i < s.len() && !hiragana(s[i]) ==> #[trigger] hiragana_to_katakana_seq(s)[i]
                == s[i],
        (forall|i: int| 0 <= i < s.len() ==> !katakana(#[trigger] s[i]))
            ==> katakana_to_hiragana_seq(s) == s,
        (forall|i: int| 0 <= i < s.len() ==> !hiragana(#[trigger] s[i]))
            ==> hiragana_to_katakana_seq(s) == s,
{
    if forall|i: int| 0 <= i < s.len() ==> !katakana(#[trigger] s[i]) {
        assert(katakana_to_hiragana_seq(s) =~= s);
    }
    if forall|i: int| 0 <= i < s.len() ==> !hiragana(#[trigger] s[i]) {
        assert(hiragana_to_katakana_seq(s) =~= s);
    }
}

/// A katakana becomes a hiragana, and comes back as itself.
pub proof fn lemma_katakana_round_trip(ch: char)
    requires
        katakana(ch),
    ensures
        hiragana(katakana_to_hiragana(ch)),
        hiragana_to_katakana(katakana_to_hiragana(ch)) == ch,
{
}

/// A hiragana becomes a katakana and comes back as itself, but for U+309B,
/// which would land on the middle dot.
pub proof fn lemma_hiragana_round_trip(ch: char)
    requires
        hiragana(ch),
        ch != '\u{309b}',
    ensures
        katakana(hiragana_to_katakana(ch)),
        katakana_to_hiragana(hiragana_to_katakana(ch)) == ch,
{
}

/// A glyph of the table becomes a katakana and comes back as itself.
pub proof fn lemma_table_glyph_round_trip(glyph: char)
    requires
        row_of(glyph) is Some,
    ensures
        katakana(hiragana_to_katakana(glyph)),
        katakana_to_hiragana(hiragana_to_katakana(glyph)) == glyph,
{
    lemma_row_of_holds(glyph);
}

/// A stem's glyph has no changed form only in the two rows of Y, for I and E.
pub proof fn lemma_stem_glyph_missing(glyph: char, to_vowel: Vowel)
    ensures
        stem_glyph(glyph, to_vowel) is None <==> (row_of(glyph) == Some(Row::Y) || row_of(glyph)
            == Some(Row::SmallY)) && (to_vowel == Vowel::I || to_vowel == Vowel::E),
{
    lemma_row_of_holds(glyph);
}

/// A glyph of a row of consonants, or of the small vowels, changes within its
/// row: the changed glyph is in the same row and has the vowel asked for.
pub proof fn lemma_stem_glyph_in_row(glyph: char, to_vowel: Vowel, row: Row)
    requires
        row_of(glyph) == Some(row),
        row != Row::Vowel,
        stem_glyph(glyph, to_vowel) is Some,
    ensures
        row_of(stem_glyph(glyph, to_vowel)->0) == Some(row),
        vowel_of(stem_glyph(glyph, to_vowel)->0) == Some(to_vowel),
{
    lemma_row_of_holds(glyph);
    let changed = stem_glyph(glyph, to_vowel)->0;
    lemma_row_two_way(row, to_vowel, changed);
    lemma_rows_disjoint(changed, row, row);
}

/// What a place of the converted text holds depends on the `char` at that
/// place and on the one before it, and on nothing else of the text.
pub proof fn lemma_single_lookback(s: Seq<char>, i: int, t: Seq<char>, j: int)
    requires
        0 <= i < s.len(),
        0 <= j < t.len(),
        s[i] == t[j],
        i == 0 <==> j == 0,
        i > 0 ==> s[i - 1] == t[j - 1],
    ensures
        katakana_to_hiragana_seq(s)[i] == katakana_to_hiragana_seq(t)[j],
{
}

/// The converted texts are as long as the text, and hold nothing of the
/// script that was converted, but for a prolonged sound mark that stayed.
pub proof fn lemma_converted_text(s: Seq<char>)
    ensures
        katakana_to_hiragana_seq(s).len() == s.len(),
        hiragana_to_katakana_seq(s).len() == s.len(),
        forall|i: int|
            0 <= i < s.len() && katakana(#[trigger] katakana_to_hiragana_seq(s)[i]) ==> s[i] == 'ー'
                && katakana_to_hiragana_seq(s)[i] == 'ー',
        forall|i: int|
            0 <= i < s.len() && s[i] != 'ー' ==> #[trigger] katakana_to_hiragana_seq(s)[i]
                == katakana_to_hiragana(s[i]),
        forall|i: int| 0 <= i < s.len() ==> !hiragana(#[trigger] hiragana_to_katakana_seq(s)[i]),
{
}

} // verus!
