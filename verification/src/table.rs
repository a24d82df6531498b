//! The kana table: one row of hiragana per consonant, one glyph per vowel.
//!
//! A row is held as a two-way map between the vowels and its glyphs. The rows
//! are searched in a fixed order, and no glyph stands in two of them.

use vstd::prelude::*;
use crate::vowel::Vowel;

verus! {

/// The rows of the table, in the order in which they are searched.
#[derive(Debug, Copy, Clone, PartialEq, Eq, Structural, Hash)]
pub enum Row {
    Vowel,
    SmallVowel,
    K,
    G,
    S,
    Z,
    T,
    D,
    N,
    H,
    B,
    P,
    M,
    R,
    Y,
    SmallY,
}

/// A mapping from the vowels to glyphs: for each vowel the glyph bound to it, if any.
#[derive(Debug, Copy, Clone)]
pub struct VowelGlyphs {
    pub a: Option<char>,
    pub i: Option<char>,
    pub u: Option<char>,
    pub e: Option<char>,
    pub o: Option<char>,
}

/// The place of a vowel in the order A, I, U, E, O.
pub open spec fn vowel_rank(vowel: Vowel) -> int {
    match vowel {
        Vowel::A => 0,
        Vowel::I => 1,
        Vowel::U => 2,
        Vowel::E => 3,
        Vowel::O => 4,
    }
}

impl VowelGlyphs {
    /// The glyph bound to `vowel`.
    pub open spec fn glyph(self, vowel: Vowel) -> Option<char> {
        match vowel {
            Vowel::A => self.a,
            Vowel::I => self.i,
            Vowel::U => self.u,
            Vowel::E => self.e,
            Vowel::O => self.o,
        }
    }

    /// The first vowel, in the order A, I, U, E, O, that `glyph` is bound to.
    pub open spec fn vowel(self, glyph: char) -> Option<Vowel> {
        if self.glyph(Vowel::A) == Some(glyph) {
            Some(Vowel::A)
        } else if self.glyph(Vowel::I) == Some(glyph) {
            Some(Vowel::I)
        } else if self.glyph(Vowel::U) == Some(glyph) {
            Some(Vowel::U)
        } else if self.glyph(Vowel::E) == Some(glyph) {
            Some(Vowel::E)
        } else if self.glyph(Vowel::O) == Some(glyph) {
            Some(Vowel::O)
        } else {
            None
        }
    }

    /// No glyph is bound to two vowels.
    pub open spec fn one_to_one(self) -> bool {
        forall|v: Vowel, w: Vowel|
            (#[trigger] self.glyph(v)) is Some && self.glyph(v) == #[trigger] self.glyph(w) ==> v
                == w
    }

    /// A mapping that binds a glyph to each of the five vowels.
    pub open spec fn spec_full(a: char, i: char, u: char, e: char, o: char) -> VowelGlyphs {
        VowelGlyphs { a: Some(a), i: Some(i), u: Some(u), e: Some(e), o: Some(o) }
    }

    /// A mapping that binds a glyph to A, U and O, and none to I and E.
    pub open spec fn spec_partial(a: char, u: char, o: char) -> VowelGlyphs {
        VowelGlyphs { a: Some(a), i: None, u: Some(u), e: None, o: Some(o) }
    }

    /// A mapping that binds a glyph to each of the five vowels.
    #[verifier::when_used_as_spec(spec_full)]
    pub fn full(a: char, i: char, u: char, e: char, o: char) -> (r: VowelGlyphs)
        ensures
            r == Self::spec_full(a, i, u, e, o),
    {
        VowelGlyphs { a: Some(a), i: Some(i), u: Some(u), e: Some(e), o: Some(o) }
    }

    /// A mapping that binds a glyph to A, U and O, and none to I and E.
    #[verifier::when_used_as_spec(spec_partial)]
    pub fn partial(a: char, u: char, o: char) -> (r: VowelGlyphs)
        ensures
            r == Self::spec_partial(a, u, o),
    {
        VowelGlyphs { a: Some(a), i: None, u: Some(u), e: None, o: Some(o) }
    }

    /// The glyph bound to `vowel`, or `None` where the mapping has none for it.
    pub fn get(&self, vowel: Vowel) -> (r: Option<char>)
        ensures
            r == self.glyph(vowel),
    {
        match vowel {
            Vowel::A => self.a,
            Vowel::I => self.i,
            Vowel::U => self.u,
            Vowel::E => self.e,
            Vowel::O => self.o,
        }
    }
}

/// What the inverse of `normal` holds once the vowels of rank below `upto` are
/// entered: an entry for each of their glyphs and no other, in the vowels' order.
spec fn inverse_upto(normal: VowelGlyphs, entries: Seq<(char, Vowel)>, upto: int) -> bool {
    &&& forall|k: int|
        0 <= k < entries.len() ==> normal.glyph((#[trigger] entries[k]).1) == Some(entries[k].0)
            && vowel_rank(entries[k].1) < upto
    &&& forall|v: Vowel|
        vowel_rank(v) < upto && (#[trigger] normal.glyph(v)) is Some ==> exists|k: int|
            0 <= k < entries.len() && #[trigger] entries[k] == (normal.glyph(v)->0, v)
    &&& forall|j: int, k: int|
        0 <= j < k < entries.len() ==> vowel_rank((#[trigger] entries[j]).1) < vowel_rank(
            (#[trigger] entries[k]).1,
        )
}

/// Enters the glyph of `vowel`, where there is one, into the inverse.
fn enter_inverse(entries: &mut Vec<(char, Vowel)>, normal: &VowelGlyphs, vowel: Vowel)
    requires
        inverse_upto(*normal, old(entries)@, vowel_rank(vowel)),
    ensures
        inverse_upto(*normal, final(entries)@, vowel_rank(vowel) + 1),
{
    let ghost before = entries@;
    match normal.get(vowel) {
        Some(glyph) => {
            entries.push((glyph, vowel));
            proof {
                let after = entries@;
                assert(after[before.len() as int] == (glyph, vowel));
                assert forall|v: Vowel|
                    vowel_rank(v) < vowel_rank(vowel) + 1 && (#[trigger] normal.glyph(v))
                        is Some implies exists|k: int|
                    0 <= k < after.len() && #[trigger] after[k] == (normal.glyph(v)->0, v) by {
                    if v != vowel {
                        let k = choose|k: int|
                            0 <= k < before.len() && #[trigger] before[k] == (
                                normal.glyph(v)->0,
                                v,
                            );
                        assert(after[k] == before[k]);
                    }
                }
            }
        },
        None => {},
    }
}

/// One row of the table: the glyph of each vowel, and the inverse, from each
/// glyph back to its vowel, computed once when the row is made.
pub struct TwoWayMap {
    row: Row,
    normal: VowelGlyphs,
    reversed: Vec<(char, Vowel)>,
}

impl View for TwoWayMap {
    type V = VowelGlyphs;

    /// The mapping from the vowels to the glyphs of this row.
    closed spec fn view(&self) -> VowelGlyphs {
        self.normal
    }
}

impl TwoWayMap {
    /// The two directions agree: the inverse holds the pairs of `normal`,
    /// turned round, and nothing else.
    #[verifier::type_invariant]
    spec fn inverse_agrees(self) -> bool {
        inverse_upto(self.normal, self.reversed@, 5)
    }

    /// The row that this map was made for.
    pub closed spec fn spec_row(&self) -> Row {
        self.row
    }

    /// Makes the map of `row` from its glyphs, and computes the inverse.
    pub fn new(row: Row, normal: VowelGlyphs) -> (r: TwoWayMap)
        ensures
            r.spec_row() == row,
            r@ == normal,
    {
        let mut reversed: Vec<(char, Vowel)> = Vec::new();
        enter_inverse(&mut reversed, &normal, Vowel::A);
        enter_inverse(&mut reversed, &normal, Vowel::I);
        enter_inverse(&mut reversed, &normal, Vowel::U);
        enter_inverse(&mut reversed, &normal, Vowel::E);
        enter_inverse(&mut reversed, &normal, Vowel::O);
        TwoWayMap { row, normal, reversed }
    }

    /// The row that this map was made for.
    #[verifier::when_used_as_spec(spec_row)]
    pub fn row(&self) -> (r: Row)
        ensures
            r == self.spec_row(),
    {
        self.row
    }

    /// The glyph of `vowel` in this row, or `None` where the row has none.
    pub fn glyph_of(&self, vowel: Vowel) -> (r: Option<char>)
        ensures
            r == self@.glyph(vowel),
    {
        self.normal.get(vowel)
    }

    /// The vowel of `glyph` in this row, or `None` where the row does not hold it.
    pub fn vowel_of(&self, glyph: char) -> (r: Option<Vowel>)
        ensures
            r == self@.vowel(glyph),
    {
        proof {
            use_type_invariant(self);
        }
        let mut k: usize = 0;
        while k < self.reversed.len()
            invariant
                k <= self.reversed@.len(),
                inverse_upto(self.normal, self.reversed@, 5),
                forall|j: int| 0 <= j < k ==> (#[trigger] self.reversed@[j]).0 != glyph,
            decreases self.reversed@.len() - k,
        {
            let entry = self.reversed[k];
            if entry.0 == glyph {
                return Some(entry.1);
            }
            k += 1;
        }
        None
    }

    /// Whether this row holds `glyph`.
    pub fn contains(&self, glyph: char) -> (r: bool)
        ensures
            r == self@.vowel(glyph).is_some(),
    {
        self.vowel_of(glyph).is_some()
    }
}

/// The number of rows in the table.
pub const ROW_COUNT: usize = 16;

/// The glyphs of each row. The two rows of Y have no glyph for I and E.
pub open spec fn standard_row(row: Row) -> VowelGlyphs {
    match row {
        Row::Vowel => VowelGlyphs::full('あ', 'い', 'う', 'え', 'お'),
        Row::SmallVowel => VowelGlyphs::full('ぁ', 'ぃ', 'ぅ', 'ぇ', 'ぉ'),
        Row::K => VowelGlyphs::full('か', 'き', 'く', 'け', 'こ'),
        Row::G => VowelGlyphs::full('が', 'ぎ', 'ぐ', 'げ', 'ご'),
        Row::S => VowelGlyphs::full('さ', 'し', 'す', 'せ', 'そ'),
        Row::Z => VowelGlyphs::full('ざ', 'じ', 'ず', 'ぜ', 'ぞ'),
        Row::T => VowelGlyphs::full('た', 'ち', 'つ', 'て', 'と'),
        Row::D => VowelGlyphs::full('だ', 'ぢ', 'づ', 'で', 'ど'),
        Row::N => VowelGlyphs::full('な', 'に', 'ぬ', 'ね', 'の'),
        Row::H => VowelGlyphs::full('は', 'ひ', 'ふ', 'へ', 'ほ'),
        Row::B => VowelGlyphs::full('ば', 'び', 'ぶ', 'べ', 'ぼ'),
        Row::P => VowelGlyphs::full('ぱ', 'ぴ', 'ぷ', 'ぺ', 'ぽ'),
        Row::M => VowelGlyphs::full('ま', 'み', 'む', 'め', 'も'),
        Row::R => VowelGlyphs::full('ら', 'り', 'る', 'れ', 'ろ'),
        Row::Y => VowelGlyphs::partial('や', 'ゆ', 'よ'),
        Row::SmallY => VowelGlyphs::partial('ゃ', 'ゅ', 'ょ'),
    }
}

/// The row searched at place `i`: the vowels first, then the small vowels,
/// then the consonants.
pub open spec fn row_at(i: int) -> Row {
    if i == 0 {
        Row::Vowel
    } else if i == 1 {
        Row::SmallVowel
    } else if i == 2 {
        Row::K
    } else if i == 3 {
        Row::G
    } else if i == 4 {
        Row::S
    } else if i == 5 {
        Row::Z
    } else if i == 6 {
        Row::T
    } else if i == 7 {
        Row::D
    } else if i == 8 {
        Row::N
    } else if i == 9 {
        Row::H
    } else if i == 10 {
        Row::B
    } else if i == 11 {
        Row::P
    } else if i == 12 {
        Row::M
    } else if i == 13 {
        Row::R
    } else if i == 14 {
        Row::Y
    } else {
        Row::SmallY
    }
}

/// The first row, from place `i` on, that holds `glyph`.
pub open spec fn first_row_from(glyph: char, i: int) -> Option<Row>
    decreases ROW_COUNT - i,
{
    if i < 0 || i >= ROW_COUNT {
        None
    } else if standard_row(row_at(i)).vowel(glyph) is Some {
        Some(row_at(i))
    } else {
        first_row_from(glyph, i + 1)
    }
}

/// The row of `glyph`: the first row in the order of search that holds it.
pub open spec fn row_of(glyph: char) -> Option<Row> {
    first_row_from(glyph, 0)
}

/// The vowel of `glyph`: the one it is bound to in its row.
pub open spec fn vowel_of(glyph: char) -> Option<Vowel> {
    match row_of(glyph) {
        Some(row) => standard_row(row).vowel(glyph),
        None => None,
    }
}

/// The glyphs of `row`.
pub fn row_glyphs(row: Row) -> (r: VowelGlyphs)
    ensures
        r == standard_row(row),
{
    match row {
        Row::Vowel => VowelGlyphs::full('あ', 'い', 'う', 'え', 'お'),
        Row::SmallVowel => VowelGlyphs::full('ぁ', 'ぃ', 'ぅ', 'ぇ', 'ぉ'),
        Row::K => VowelGlyphs::full('か', 'き', 'く', 'け', 'こ'),
        Row::G => VowelGlyphs::full('が', 'ぎ', 'ぐ', 'げ', 'ご'),
        Row::S => VowelGlyphs::full('さ', 'し', 'す', 'せ', 'そ'),
        Row::Z => VowelGlyphs::full('ざ', 'じ', 'ず', 'ぜ', 'ぞ'),
        Row::T => VowelGlyphs::full('た', 'ち', 'つ', 'て', 'と'),
        Row::D => VowelGlyphs::full('だ', 'ぢ', 'づ', 'で', 'ど'),
        Row::N => VowelGlyphs::full('な', 'に', 'ぬ', 'ね', 'の'),
        Row::H => VowelGlyphs::full('は', 'ひ', 'ふ', 'へ', 'ほ'),
        Row::B => VowelGlyphs::full('ば', 'び', 'ぶ', 'べ', 'ぼ'),
        Row::P => VowelGlyphs::full('ぱ', 'ぴ', 'ぷ', 'ぺ', 'ぽ'),
        Row::M => VowelGlyphs::full('ま', 'み', 'む', 'め', 'も'),
        Row::R => VowelGlyphs::full('ら', 'り', 'る', 'れ', 'ろ'),
        Row::Y => VowelGlyphs::partial('や', 'ゆ', 'よ'),
        Row::SmallY => VowelGlyphs::partial('ゃ', 'ゅ', 'ょ'),
    }
}

/// The two directions of a mapping agree: a glyph's vowel is bound to that
/// glyph, and where no glyph is bound to two vowels, a vowel's glyph has
/// that vowel.
pub proof fn lemma_two_way(glyphs: VowelGlyphs, vowel: Vowel, glyph: char)
    ensures
        glyphs.vowel(glyph) == Some(vowel) ==> glyphs.glyph(vowel) == Some(glyph),
        glyphs.one_to_one() && glyphs.glyph(vowel) == Some(glyph) ==> glyphs.vowel(glyph) == Some(
            vowel,
        ),
        glyphs.vowel(glyph) is Some <==> exists|v: Vowel| #[trigger] glyphs.glyph(v) == Some(glyph),
{
    if glyphs.vowel(glyph) is Some {
        assert(glyphs.glyph(glyphs.vowel(glyph)->0) == Some(glyph));
    }
}

/// Within each row of the table no glyph is bound to two vowels, so the two
/// directions of the row are exact inverses.
pub proof fn lemma_row_two_way(row: Row, vowel: Vowel, glyph: char)
    ensures
        standard_row(row).one_to_one(),
        standard_row(row).glyph(vowel) == Some(glyph) <==> standard_row(row).vowel(glyph) == Some(
            vowel,
        ),
{
}

/// The rows part the glyphs among them: a glyph that a row holds is in no
/// other row, so the first row that holds it is the only one.
pub proof fn lemma_rows_disjoint(glyph: char, row: Row, other: Row)
    requires
        standard_row(row).vowel(glyph) is Some,
    ensures
        standard_row(other).vowel(glyph) is Some ==> other == row,
        row_of(glyph) == Some(row),
{
    reveal_with_fuel(first_row_from, 17);
}

/// A glyph has a row exactly where some row holds it, and then a vowel too;
/// every glyph of the table is hiragana.
pub proof fn lemma_row_of_holds(glyph: char)
    ensures
        row_of(glyph) is Some <==> exists|row: Row| (#[trigger] standard_row(row)).vowel(glyph) is Some,
        row_of(glyph) matches Some(row) ==> standard_row(row).vowel(glyph) is Some,
        row_of(glyph) is Some <==> vowel_of(glyph) is Some,
        row_of(glyph) is Some ==> crate::charset::hiragana(glyph),
{
    reveal_with_fuel(first_row_from, 17);
    if exists|row: Row| (#[trigger] standard_row(row)).vowel(glyph) is Some {
        let row = choose|row: Row| (#[trigger] standard_row(row)).vowel(glyph) is Some;
        lemma_rows_disjoint(glyph, row, row);
    }
}

/// The table as the registry holds it: each row with its glyphs, in the order
/// of search.
pub open spec fn standard_table() -> Seq<(Row, VowelGlyphs)> {
    Seq::new(ROW_COUNT as nat, |i: int| (row_at(i), standard_row(row_at(i))))
}

/// The rows of the table in the order of search, made once and only read after.
pub struct TableRegistry {
    tables: Vec<TwoWayMap>,
}

impl View for TableRegistry {
    type V = Seq<(Row, VowelGlyphs)>;

    /// The rows held, each with its glyphs, in the order of search.
    closed spec fn view(&self) -> Seq<(Row, VowelGlyphs)> {
        Seq::new(self.tables@.len(), |i: int| (self.tables@[i].row, self.tables@[i].normal))
    }
}

impl TableRegistry {
    /// The registry holds each row of the table once, at its place in the order.
    #[verifier::type_invariant]
    spec fn holds_the_table(self) -> bool {
        &&& self.tables@.len() == ROW_COUNT
        &&& forall|i: int|
            0 <= i < ROW_COUNT ==> (#[trigger] self.tables@[i]).row == row_at(i)
                && self.tables@[i].normal == standard_row(row_at(i))
    }

    /// Makes the registry of the sixteen rows.
    pub fn new() -> (r: TableRegistry)
        ensures
            r@ == standard_table(),
    {
        let mut tables: Vec<TwoWayMap> = Vec::new();
        tables.push(TwoWayMap::new(Row::Vowel, row_glyphs(Row::Vowel)));
        tables.push(TwoWayMap::new(Row::SmallVowel, row_glyphs(Row::SmallVowel)));
        tables.push(TwoWayMap::new(Row::K, row_glyphs(Row::K)));
        tables.push(TwoWayMap::new(Row::G, row_glyphs(Row::G)));
        tables.push(TwoWayMap::new(Row::S, row_glyphs(Row::S)));
        tables.push(TwoWayMap::new(Row::Z, row_glyphs(Row::Z)));
        tables.push(TwoWayMap::new(Row::T, row_glyphs(Row::T)));
        tables.push(TwoWayMap::new(Row::D, row_glyphs(Row::D)));
        tables.push(TwoWayMap::new(Row::N, row_glyphs(Row::N)));
        tables.push(TwoWayMap::new(Row::H, row_glyphs(Row::H)));
        tables.push(TwoWayMap::new(Row::B, row_glyphs(Row::B)));
        tables.push(TwoWayMap::new(Row::P, row_glyphs(Row::P)));
        tables.push(TwoWayMap::new(Row::M, row_glyphs(Row::M)));
        tables.push(TwoWayMap::new(Row::R, row_glyphs(Row::R)));
        tables.push(TwoWayMap::new(Row::Y, row_glyphs(Row::Y)));
        tables.push(TwoWayMap::new(Row::SmallY, row_glyphs(Row::SmallY)));
        let r = TableRegistry { tables };
        assert(r@ =~= standard_table());
        r
    }

    /// The rows in the order of search.
    pub fn tables(&self) -> (r: &Vec<TwoWayMap>)
        ensures
            self@ == standard_table(),
            r@.len() == ROW_COUNT,
            forall|i: int|
                0 <= i < ROW_COUNT ==> (#[trigger] r@[i]).spec_row() == row_at(i) && r@[i]@
                    == standard_row(row_at(i)),
    {
        proof {
            use_type_invariant(self);
            assert(self@ =~= standard_table());
        }
        &self.tables
    }

    /// The row of the plain vowels, the first of the registry.
    pub fn vowel_row(&self) -> (r: &TwoWayMap)
        ensures
            r.spec_row() == Row::Vowel,
            r@ == standard_row(Row::Vowel),
    {
        proof {
            use_type_invariant(self);
        }
        &self.tables[0]
    }
}

} // verus!
