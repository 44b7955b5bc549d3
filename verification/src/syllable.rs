//! The syllable codec: a bijection between Unicode Hangul syllable code
//! points (`U+AC00` through `U+D7A3`) and triples of phonetic components
//! (initial consonant, medial vowel, final consonant).

use vstd::prelude::*;

verus! {

/// The lowest code point of a precomposed Hangul syllable (U+AC00).
pub const HANGUL_BASE: u32 = 0xAC00;

/// The highest code point of a precomposed Hangul syllable (U+D7A3).
pub const HANGUL_LAST: u32 = 0xD7A3;

/// Consonants that can occupy the choseong (initial) position of a modern
/// Hangul syllable, in the canonical Unicode order: the ordinal of each
/// variant is exactly the index used by the syllable composition formula.
#[derive(Clone, Copy, Debug, Eq, Ord, PartialEq, PartialOrd, Structural)]
pub enum Choseong {
    /// 'ㄱ'
    Kiyeok,
    /// 'ㄲ'
    SsangKiyeok,
    /// 'ㄴ'
    Nieun,
    /// 'ㄷ'
    Tikeut,
    /// 'ㄸ'
    SsangTikeut,
    /// 'ㄹ'
    Rieul,
    /// 'ㅁ'
    Mieum,
    /// 'ㅂ'
    Pieup,
    /// 'ㅃ'
    SsangPieup,
    /// 'ㅅ'
    Sios,
    /// 'ㅆ'
    SsangSios,
    /// 'ㅇ' (the silent-initial placeholder, the liaison target)
    Ieung,
    /// 'ㅈ'
    Cieuc,
    /// 'ㅉ'
    SsangCieuc,
    /// 'ㅊ'
    Chieuch,
    /// 'ㅋ'
    Khieukh,
    /// 'ㅌ'
    Thieuth,
    /// 'ㅍ'
    Phieuph,
    /// 'ㅎ'
    Hieuh,
}

/// Vowels that can occupy the jungseong (medial) position, in canonical
/// Unicode order.
#[derive(Clone, Copy, Debug, Eq, Ord, PartialEq, PartialOrd, Structural)]
pub enum Jungseong {
    /// 'ㅏ'
    A,
    /// 'ㅐ'
    Ae,
    /// 'ㅑ'
    Ya,
    /// 'ㅒ'
    Yae,
    /// 'ㅓ'
    Eo,
    /// 'ㅔ'
    E,
    /// 'ㅕ'
    Yeo,
    /// 'ㅖ'
    Ye,
    /// 'ㅗ'
    O,
    /// 'ㅘ'
    Wa,
    /// 'ㅙ'
    Wae,
    /// 'ㅚ'
    Oe,
    /// 'ㅛ'
    Yo,
    /// 'ㅜ'
    U,
    /// 'ㅝ'
    Weo,
    /// 'ㅞ'
    We,
    /// 'ㅟ'
    Wi,
    /// 'ㅠ'
    Yu,
    /// 'ㅡ'
    Eu,
    /// 'ㅢ'
    Yi,
    /// 'ㅣ'
    I,
}

/// Consonants (including clusters) that can occupy the jongseong (final)
/// position, in canonical Unicode order; `Empty` is the zero value that
/// stands for the absence of a final consonant.
#[derive(Clone, Copy, Debug, Eq, Ord, PartialEq, PartialOrd, Structural)]
pub enum Jongseong {
    /// nothing in the jongseong position
    Empty,
    /// 'ㄱ'
    Kiyeok,
    /// 'ㄲ'
    SsangKiyeok,
    /// 'ㄳ'
    KiyeokSios,
    /// 'ㄴ'
    Nieun,
    /// 'ㄵ'
    NieunCieuc,
    /// 'ㄶ'
    NieunHieuh,
    /// 'ㄷ'
    Tikeut,
    /// 'ㄹ'
    Rieul,
    /// 'ㄺ'
    RieulKiyeok,
    /// 'ㄻ'
    RieulMieum,
    /// 'ㄼ'
    RieulPieup,
    /// 'ㄽ'
    RieulSios,
    /// 'ㄾ'
    RieulThieuth,
    /// 'ㄿ'
    RieulPhieuph,
    /// 'ㅀ'
    RieulHieuh,
    /// 'ㅁ'
    Mieum,
    /// 'ㅂ'
    Pieup,
    /// 'ㅄ'
    PieupSios,
    /// 'ㅅ'
    Sios,
    /// 'ㅆ'
    SsangSios,
    /// 'ㅇ'
    Ieung,
    /// 'ㅈ'
    Cieuc,
    /// 'ㅊ'
    Chieuch,
    /// 'ㅋ'
    Khieukh,
    /// 'ㅌ'
    Thieuth,
    /// 'ㅍ'
    Phieuph,
    /// 'ㅎ'
    Hieuh,
}

/// The error conditions of the codec.
#[derive(Clone, Copy, Debug, Eq, PartialEq, Structural)]
pub enum Error {
    /// A `char` outside the Hangul syllable range (U+AC00 -- U+D7A3) was
    /// offered for decomposition.
    NonKorean,
}

impl Error {
    /// The human-readable description of the error.
    pub fn message(&self) -> (r: &'static str)
        ensures
            r@ == "Given character is not Korean"@,
    {
        match self {
            Error::NonKorean => "Given character is not Korean",
        }
    }
}

/// A single Hangul syllable as a triple of phonetic components.
#[derive(Clone, Copy, Debug, Eq, Ord, PartialEq, PartialOrd, Structural)]
pub struct Syllable {
    pub choseong: Choseong,
    pub jungseong: Jungseong,
    pub jongseong: Jongseong,
}

/// The ordinal of an initial consonant in the composition formula.
pub open spec fn choseong_index(c: Choseong) -> int {
    match c {
        Choseong::Kiyeok => 0,
        Choseong::SsangKiyeok => 1,
        Choseong::Nieun => 2,
        Choseong::Tikeut => 3,
        Choseong::SsangTikeut => 4,
        Choseong::Rieul => 5,
        Choseong::Mieum => 6,
        Choseong::Pieup => 7,
        Choseong::SsangPieup => 8,
        Choseong::Sios => 9,
        Choseong::SsangSios => 10,
        Choseong::Ieung => 11,
        Choseong::Cieuc => 12,
        Choseong::SsangCieuc => 13,
        Choseong::Chieuch => 14,
        Choseong::Khieukh => 15,
        Choseong::Thieuth => 16,
        Choseong::Phieuph => 17,
        Choseong::Hieuh => 18,
    }
}

/// The ordinal of a medial vowel in the composition formula.
pub open spec fn jungseong_index(m: Jungseong) -> int {
    match m {
        Jungseong::A => 0,
        Jungseong::Ae => 1,
        Jungseong::Ya => 2,
        Jungseong::Yae => 3,
        Jungseong::Eo => 4,
        Jungseong::E => 5,
        Jungseong::Yeo => 6,
        Jungseong::Ye => 7,
        Jungseong::O => 8,
        Jungseong::Wa => 9,
        Jungseong::Wae => 10,
        Jungseong::Oe => 11,
        Jungseong::Yo => 12,
        Jungseong::U => 13,
        Jungseong::Weo => 14,
        Jungseong::We => 15,
        Jungseong::Wi => 16,
        Jungseong::Yu => 17,
        Jungseong::Eu => 18,
        Jungseong::Yi => 19,
        Jungseong::I => 20,
    }
}

/// The ordinal of a final consonant in the composition formula; the `Empty`
/// sentinel is the zero value.
pub open spec fn jongseong_index(j: Jongseong) -> int {
    match j {
        Jongseong::Empty => 0,
        Jongseong::Kiyeok => 1,
        Jongseong::SsangKiyeok => 2,
        Jongseong::KiyeokSios => 3,
        Jongseong::Nieun => 4,
        Jongseong::NieunCieuc => 5,
        Jongseong::NieunHieuh => 6,
        Jongseong::Tikeut => 7,
        Jongseong::Rieul => 8,
        Jongseong::RieulKiyeok => 9,
        Jongseong::RieulMieum => 10,
        Jongseong::RieulPieup => 11,
        Jongseong::RieulSios => 12,
        Jongseong::RieulThieuth => 13,
        Jongseong::RieulPhieuph => 14,
        Jongseong::RieulHieuh => 15,
        Jongseong::Mieum => 16,
        Jongseong::Pieup => 17,
        Jongseong::PieupSios => 18,
        Jongseong::Sios => 19,
        Jongseong::SsangSios => 20,
        Jongseong::Ieung => 21,
        Jongseong::Cieuc => 22,
        Jongseong::Chieuch => 23,
        Jongseong::Khieukh => 24,
        Jongseong::Thieuth => 25,
        Jongseong::Phieuph => 26,
        Jongseong::Hieuh => 27,
    }
}

/// The initial consonant with the given ordinal.
pub open spec fn choseong_from_index(i: int) -> Choseong {
    if i == 0 {
        Choseong::Kiyeok
    } else if i == 1 {
        Choseong::SsangKiyeok
    } else if i == 2 {
        Choseong::Nieun
    } else if i == 3 {
        Choseong::Tikeut
    } else if i == 4 {
        Choseong::SsangTikeut
    } else if i == 5 {
        Choseong::Rieul
    } else if i == 6 {
        Choseong::Mieum
    } else if i == 7 {
        Choseong::Pieup
    } else if i == 8 {
        Choseong::SsangPieup
    } else if i == 9 {
        Choseong::Sios
    } else if i == 10 {
        Choseong::SsangSios
    } else if i == 11 {
        Choseong::Ieung
    } else if i == 12 {
        Choseong::Cieuc
    } else if i == 13 {
        Choseong::SsangCieuc
    } else if i == 14 {
        Choseong::Chieuch
    } else if i == 15 {
        Choseong::Khieukh
    } else if i == 16 {
        Choseong::Thieuth
    } else if i == 17 {
        Choseong::Phieuph
    } else {
        Choseong::Hieuh
    }
}

/// The medial vowel with the given ordinal.
pub open spec fn jungseong_from_index(i: int) -> Jungseong {
    if i == 0 {
        Jungseong::A
    } else if i == 1 {
        Jungseong::Ae
    } else if i == 2 {
        Jungseong::Ya
    } else if i == 3 {
        Jungseong::Yae
    } else if i == 4 {
        Jungseong::Eo
    } else if i == 5 {
        Jungseong::E
    } else if i == 6 {
        Jungseong::Yeo
    } else if i == 7 {
        Jungseong::Ye
    } else if i == 8 {
        Jungseong::O
    } else if i == 9 {
        Jungseong::Wa
    } else if i == 10 {
        Jungseong::Wae
    } else if i == 11 {
        Jungseong::Oe
    } else if i == 12 {
        Jungseong::Yo
    } else if i == 13 {
        Jungseong::U
    } else if i == 14 {
        Jungseong::Weo
    } else if i == 15 {
        Jungseong::We
    } else if i == 16 {
        Jungseong::Wi
    } else if i == 17 {
        Jungseong::Yu
    } else if i == 18 {
        Jungseong::Eu
    } else if i == 19 {
        Jungseong::Yi
    } else {
        Jungseong::I
    }
}

/// The final consonant with the given ordinal.
pub open spec fn jongseong_from_index(i: int) -> Jongseong {
    if i == 0 {
        Jongseong::Empty
    } else if i == 1 {
        Jongseong::Kiyeok
    } else if i == 2 {
        Jongseong::SsangKiyeok
    } else if i == 3 {
        Jongseong::KiyeokSios
    } else if i == 4 {
        Jongseong::Nieun
    } else if i == 5 {
        Jongseong::NieunCieuc
    } else if i == 6 {
        Jongseong::NieunHieuh
    } else if i == 7 {
        Jongseong::Tikeut
    } else if i == 8 {
        Jongseong::Rieul
    } else if i == 9 {
        Jongseong::RieulKiyeok
    } else if i == 10 {
        Jongseong::RieulMieum
    } else if i == 11 {
        Jongseong::RieulPieup
    } else if i == 12 {
        Jongseong::RieulSios
    } else if i == 13 {
        Jongseong::RieulThieuth
    } else if i == 14 {
        Jongseong::RieulPhieuph
    } else if i == 15 {
        Jongseong::RieulHieuh
    } else if i == 16 {
        Jongseong::Mieum
    } else if i == 17 {
        Jongseong::Pieup
    } else if i == 18 {
        Jongseong::PieupSios
    } else if i == 19 {
        Jongseong::Sios
    } else if i == 20 {
        Jongseong::SsangSios
    } else if i == 21 {
        Jongseong::Ieung
    } else if i == 22 {
        Jongseong::Cieuc
    } else if i == 23 {
        Jongseong::Chieuch
    } else if i == 24 {
        Jongseong::Khieukh
    } else if i == 25 {
        Jongseong::Thieuth
    } else if i == 26 {
        Jongseong::Phieuph
    } else {
        Jongseong::Hieuh
    }
}

/// Whether a code point lies in the Hangul syllable range.
pub open spec fn is_hangul_code(u: int) -> bool {
    HANGUL_BASE <= u <= HANGUL_LAST
}

/// Whether a character is a precomposed Hangul syllable.
pub open spec fn is_hangul_char(c: char) -> bool {
    is_hangul_code((c as u32) as int)
}

/// The code point obtained by composing the three components of a syllable:
/// the affine formula over the component ordinals.
pub open spec fn syllable_code(s: Syllable) -> int {
    HANGUL_BASE + choseong_index(s.choseong) * 588 + jungseong_index(s.jungseong) * 28
        + jongseong_index(s.jongseong)
}

/// The character obtained by composing the three components of a syllable.
pub open spec fn compose_char(s: Syllable) -> char {
    (syllable_code(s) as u32) as char
}

/// The syllable decomposition of a code point in the Hangul syllable range.
pub open spec fn decompose_code(u: int) -> Syllable
    recommends
        is_hangul_code(u),
{
    let x = u - HANGUL_BASE;
    Syllable {
        choseong: choseong_from_index(x / 588),
        jungseong: jungseong_from_index((x / 28) % 21),
        jongseong: jongseong_from_index(x % 28),
    }
}

/// The syllable decomposition of a Hangul syllable character.
pub open spec fn decompose_char(c: char) -> Syllable
    recommends
        is_hangul_char(c),
{
    decompose_code((c as u32) as int)
}

/// Every component ordinal is in range: 19 initials, 21 medials, 28 finals.
pub proof fn lemma_index_ranges(s: Syllable)
    ensures
        0 <= choseong_index(s.choseong) < 19,
        0 <= jungseong_index(s.jungseong) < 21,
        0 <= jongseong_index(s.jongseong) < 28,
{
}

/// Looking a component up by its own ordinal restores the component.
pub proof fn lemma_component_of_ordinal(s: Syllable)
    ensures
        choseong_from_index(choseong_index(s.choseong)) == s.choseong,
        jungseong_from_index(jungseong_index(s.jungseong)) == s.jungseong,
        jongseong_from_index(jongseong_index(s.jongseong)) == s.jongseong,
{
}

/// The ordinal of the component with a given in-range ordinal is that
/// ordinal itself.
pub proof fn lemma_ordinal_of_component(i: int)
    ensures
        0 <= i < 19 ==> choseong_index(choseong_from_index(i)) == i,
        0 <= i < 21 ==> jungseong_index(jungseong_from_index(i)) == i,
        0 <= i < 28 ==> jongseong_index(jongseong_from_index(i)) == i,
{
}

/// Composing any syllable lands in the Hangul range, and decomposing the
/// result restores the syllable: the codec loses nothing on the way out.
pub proof fn lemma_syllable_round_trip(s: Syllable)
    ensures
        is_hangul_code(syllable_code(s)),
        is_hangul_char(compose_char(s)),
        decompose_char(compose_char(s)) == s,
{
    lemma_index_ranges(s);
    let c = choseong_index(s.choseong);
    let m = jungseong_index(s.jungseong);
    let j = jongseong_index(s.jongseong);
    let x = c * 588 + m * 28 + j;
    assert(0 <= x <= 11171);
    vstd::arithmetic::div_mod::lemma_fundamental_div_mod_converse(x, 588, c, m * 28 + j);
    vstd::arithmetic::div_mod::lemma_fundamental_div_mod_converse(x, 28, c * 21 + m, j);
    vstd::arithmetic::div_mod::lemma_fundamental_div_mod_converse(c * 21 + m, 21, c, m);
    assert(x / 588 == c);
    assert((x / 28) % 21 == m);
    assert(x % 28 == j);
    lemma_component_of_ordinal(s);
    let u = syllable_code(s);
    assert((u as u32) as int == u);
    assert(((u as u32) as char) as u32 == u as u32);
    assert(decompose_code(u) == s);
}

/// Decomposing a character in the Hangul range and composing the result
/// restores the character: the codec loses nothing on the way in.
pub proof fn lemma_compose_round_trip(c: char)
    requires
        is_hangul_char(c),
    ensures
        compose_char(decompose_char(c)) == c,
{
    let u = (c as u32) as int;
    let x = u - HANGUL_BASE;
    assert(0 <= x <= 11171);
    vstd::arithmetic::div_mod::lemma_fundamental_div_mod(x, 28);
    vstd::arithmetic::div_mod::lemma_fundamental_div_mod(x / 28, 21);
    vstd::arithmetic::div_mod::lemma_div_denominator(x, 28, 21);
    assert(x == 588 * (x / 588) + 28 * ((x / 28) % 21) + x % 28);
    vstd::arithmetic::div_mod::lemma_div_is_ordered(x, 11171, 588);
    assert(0 <= x / 588 < 19);
    assert(0 <= (x / 28) % 21 < 21);
    assert(0 <= x % 28 < 28);
    lemma_ordinal_of_component(x / 588);
    lemma_ordinal_of_component((x / 28) % 21);
    lemma_ordinal_of_component(x % 28);
    assert(syllable_code(decompose_code(u)) == u);
    vstd::utf8::char_u32_cast(c, c as u32);
}

/// Relies on `char::from_u32` of std: it returns the character with the
/// given code point, and `None` exactly for surrogate code points and values
/// above the Unicode maximum.
pub assume_specification[ char::from_u32 ](i: u32) -> (r: Option<char>)
    ensures
        r is Some <==> (i < 0xD800 || (0xE000 <= i && i <= 0x10FFFF)),
        r is Some ==> r->0 as u32 == i,
;

/// The exec ordinal of an initial consonant.
fn choseong_ordinal(c: Choseong) -> (r: u32)
    ensures
        r as int == choseong_index(c),
{
    match c {
        Choseong::Kiyeok => 0,
        Choseong::SsangKiyeok => 1,
        Choseong::Nieun => 2,
        Choseong::Tikeut => 3,
        Choseong::SsangTikeut => 4,
        Choseong::Rieul => 5,
        Choseong::Mieum => 6,
        Choseong::Pieup => 7,
        Choseong::SsangPieup => 8,
        Choseong::Sios => 9,
        Choseong::SsangSios => 10,
        Choseong::Ieung => 11,
        Choseong::Cieuc => 12,
        Choseong::SsangCieuc => 13,
        Choseong::Chieuch => 14,
        Choseong::Khieukh => 15,
        Choseong::Thieuth => 16,
        Choseong::Phieuph => 17,
        Choseong::Hieuh => 18,
    }
}

/// The exec ordinal of a medial vowel.
fn jungseong_ordinal(m: Jungseong) -> (r: u32)
    ensures
        r as int == jungseong_index(m),
{
    match m {
        Jungseong::A => 0,
        Jungseong::Ae => 1,
        Jungseong::Ya => 2,
        Jungseong::Yae => 3,
        Jungseong::Eo => 4,
        Jungseong::E => 5,
        Jungseong::Yeo => 6,
        Jungseong::Ye => 7,
        Jungseong::O => 8,
        Jungseong::Wa => 9,
        Jungseong::Wae => 10,
        Jungseong::Oe => 11,
        Jungseong::Yo => 12,
        Jungseong::U => 13,
        Jungseong::Weo => 14,
        Jungseong::We => 15,
        Jungseong::Wi => 16,
        Jungseong::Yu => 17,
        Jungseong::Eu => 18,
        Jungseong::Yi => 19,
        Jungseong::I => 20,
    }
}

/// The exec ordinal of a final consonant.
fn jongseong_ordinal(j: Jongseong) -> (r: u32)
    ensures
        r as int == jongseong_index(j),
{
    match j {
        Jongseong::Empty => 0,
        Jongseong::Kiyeok => 1,
        Jongseong::SsangKiyeok => 2,
        Jongseong::KiyeokSios => 3,
        Jongseong::Nieun => 4,
        Jongseong::NieunCieuc => 5,
        Jongseong::NieunHieuh => 6,
        Jongseong::Tikeut => 7,
        Jongseong::Rieul => 8,
        Jongseong::RieulKiyeok => 9,
        Jongseong::RieulMieum => 10,
        Jongseong::RieulPieup => 11,
        Jongseong::RieulSios => 12,
        Jongseong::RieulThieuth => 13,
        Jongseong::RieulPhieuph => 14,
        Jongseong::RieulHieuh => 15,
        Jongseong::Mieum => 16,
        Jongseong::Pieup => 17,
        Jongseong::PieupSios => 18,
        Jongseong::Sios => 19,
        Jongseong::SsangSios => 20,
        Jongseong::Ieung => 21,
        Jongseong::Cieuc => 22,
        Jongseong::Chieuch => 23,
        Jongseong::Khieukh => 24,
        Jongseong::Thieuth => 25,
        Jongseong::Phieuph => 26,
        Jongseong::Hieuh => 27,
    }
}

/// The exec initial consonant with the given ordinal.
fn choseong_of_index(i: u32) -> (r: Choseong)
    requires
        i < 19,
    ensures
        r == choseong_from_index(i as int),
{
    match i {
        0 => Choseong::Kiyeok,
        1 => Choseong::SsangKiyeok,
        2 => Choseong::Nieun,
        3 => Choseong::Tikeut,
        4 => Choseong::SsangTikeut,
        5 => Choseong::Rieul,
        6 => Choseong::Mieum,
        7 => Choseong::Pieup,
        8 => Choseong::SsangPieup,
        9 => Choseong::Sios,
        10 => Choseong::SsangSios,
        11 => Choseong::Ieung,
        12 => Choseong::Cieuc,
        13 => Choseong::SsangCieuc,
        14 => Choseong::Chieuch,
        15 => Choseong::Khieukh,
        16 => Choseong::Thieuth,
        17 => Choseong::Phieuph,
        _ => Choseong::Hieuh,
    }
}

/// The exec medial vowel with the given ordinal.
fn jungseong_of_index(i: u32) -> (r: Jungseong)
    requires
        i < 21,
    ensures
        r == jungseong_from_index(i as int),
{
    match i {
        0 => Jungseong::A,
        1 => Jungseong::Ae,
        2 => Jungseong::Ya,
        3 => Jungseong::Yae,
        4 => Jungseong::Eo,
        5 => Jungseong::E,
        6 => Jungseong::Yeo,
        7 => Jungseong::Ye,
        8 => Jungseong::O,
        9 => Jungseong::Wa,
        10 => Jungseong::Wae,
        11 => Jungseong::Oe,
        12 => Jungseong::Yo,
        13 => Jungseong::U,
        14 => Jungseong::Weo,
        15 => Jungseong::We,
        16 => Jungseong::Wi,
        17 => Jungseong::Yu,
        18 => Jungseong::Eu,
        19 => Jungseong::Yi,
        _ => Jungseong::I,
    }
}

/// The exec final consonant with the given ordinal.
fn jongseong_of_index(i: u32) -> (r: Jongseong)
    requires
        i < 28,
    ensures
        r == jongseong_from_index(i as int),
{
    match i {
        0 => Jongseong::Empty,
        1 => Jongseong::Kiyeok,
        2 => Jongseong::SsangKiyeok,
        3 => Jongseong::KiyeokSios,
        4 => Jongseong::Nieun,
        5 => Jongseong::NieunCieuc,
        6 => Jongseong::NieunHieuh,
        7 => Jongseong::Tikeut,
        8 => Jongseong::Rieul,
        9 => Jongseong::RieulKiyeok,
        10 => Jongseong::RieulMieum,
        11 => Jongseong::RieulPieup,
        12 => Jongseong::RieulSios,
        13 => Jongseong::RieulThieuth,
        14 => Jongseong::RieulPhieuph,
        15 => Jongseong::RieulHieuh,
        16 => Jongseong::Mieum,
        17 => Jongseong::Pieup,
        18 => Jongseong::PieupSios,
        19 => Jongseong::Sios,
        20 => Jongseong::SsangSios,
        21 => Jongseong::Ieung,
        22 => Jongseong::Cieuc,
        23 => Jongseong::Chieuch,
        24 => Jongseong::Khieukh,
        25 => Jongseong::Thieuth,
        26 => Jongseong::Phieuph,
        _ => Jongseong::Hieuh,
    }
}

impl Syllable {
    /// Determines whether a character is a precomposed Hangul syllable.
    pub fn is_one_of_us(character: char) -> (r: bool)
        ensures
            r == is_hangul_char(character),
    {
        let u = character as u32;
        HANGUL_BASE <= u && u <= HANGUL_LAST
    }

    /// Decomposes a Hangul syllable character into its three components;
    /// every other character is rejected with `Error::NonKorean`.
    pub fn try_from_char(character: char) -> (r: Result<Syllable, Error>)
        ensures
            is_hangul_char(character) ==> r == Ok::<Syllable, Error>(decompose_char(character)),
            !is_hangul_char(character) ==> r == Err::<Syllable, Error>(Error::NonKorean),
    {
        if !Self::is_one_of_us(character) {
            return Err(Error::NonKorean);
        }
        let x = character as u32 - HANGUL_BASE;
        let jong = x % 28;
        let jung = (x / 28) % 21;
        let cho = x / 588;
        proof {
            vstd::arithmetic::div_mod::lemma_div_is_ordered(x as int, 11171, 588);
        }
        Ok(
            Syllable {
                choseong: choseong_of_index(cho),
                jungseong: jungseong_of_index(jung),
                jongseong: jongseong_of_index(jong),
            },
        )
    }

    /// Composes the three components back into the Hangul syllable
    /// character; total, and always lands inside the Hangul range.
    pub fn to_char(self) -> (r: char)
        ensures
            r == compose_char(self),
            is_hangul_char(r),
    {
        proof {
            lemma_syllable_round_trip(self);
        }
        let u = HANGUL_BASE + choseong_ordinal(self.choseong) * 588
            + jungseong_ordinal(self.jungseong) * 28 + jongseong_ordinal(self.jongseong);
        match char::from_u32(u) {
            Some(c) => {
                proof {
                    vstd::utf8::char_u32_cast(c, u);
                }
                c
            },
            None => unreached(),
        }
    }
}

} // verus!
