//! The pushdown engine: a single left-to-right pass over a character
//! stream that applies the liaison rule table with one character of
//! lookahead and one pending initial consonant carried between characters.

use vstd::prelude::*;
use vstd::string::StrSliceExecFns;

use crate::syllable::{
    compose_char, decompose_char, is_hangul_char, lemma_syllable_round_trip, Choseong, Jongseong,
    Jungseong, Syllable,
};

verus! {

/// Relies on `String::push` of std: it appends the given character to the
/// end of the string.
pub assume_specification[ String::push ](s: &mut String, ch: char)
    ensures
        final(s)@ == old(s)@.push(ch),
;

/// The liaison rule table as a function of the current syllable's final
/// consonant: the replacement final consonant (`Empty` when nothing stays
/// behind) and the initial consonant pushed down onto the following
/// syllable, or `None` where no rule row matches. Rows for the finals
/// `NieunHieuh`, `RieulHieuh` and `Hieuh` belong to the extended ruleset
/// and match only when `extended` is true; the `Empty` and `Ieung` finals
/// have no row at all.
pub open spec fn rule_lookup(j: Jongseong, extended: bool) -> Option<(Jongseong, Choseong)> {
    match j {
        Jongseong::Empty => None,
        Jongseong::Kiyeok => Some((Jongseong::Empty, Choseong::Kiyeok)),
        Jongseong::SsangKiyeok => Some((Jongseong::Empty, Choseong::SsangKiyeok)),
        Jongseong::KiyeokSios => Some((Jongseong::Kiyeok, Choseong::Sios)),
        Jongseong::Nieun => Some((Jongseong::Empty, Choseong::Nieun)),
        Jongseong::NieunCieuc => Some((Jongseong::Nieun, Choseong::Cieuc)),
        Jongseong::NieunHieuh => if extended {
            Some((Jongseong::Nieun, Choseong::Hieuh))
        } else {
            None
        },
        Jongseong::Tikeut => Some((Jongseong::Empty, Choseong::Tikeut)),
        Jongseong::Rieul => Some((Jongseong::Empty, Choseong::Rieul)),
        Jongseong::RieulKiyeok => Some((Jongseong::Rieul, Choseong::Kiyeok)),
        Jongseong::RieulMieum => Some((Jongseong::Rieul, Choseong::Mieum)),
        Jongseong::RieulPieup => Some((Jongseong::Rieul, Choseong::Pieup)),
        Jongseong::RieulSios => Some((Jongseong::Rieul, Choseong::Sios)),
        Jongseong::RieulThieuth => Some((Jongseong::Rieul, Choseong::Thieuth)),
        Jongseong::RieulPhieuph => Some((Jongseong::Rieul, Choseong::Phieuph)),
        Jongseong::RieulHieuh => if extended {
            Some((Jongseong::Rieul, Choseong::Hieuh))
        } else {
            None
        },
        Jongseong::Mieum => Some((Jongseong::Empty, Choseong::Mieum)),
        Jongseong::Pieup => Some((Jongseong::Empty, Choseong::Pieup)),
        Jongseong::PieupSios => Some((Jongseong::Pieup, Choseong::Sios)),
        Jongseong::Sios => Some((Jongseong::Empty, Choseong::Sios)),
        Jongseong::SsangSios => Some((Jongseong::Empty, Choseong::SsangSios)),
        Jongseong::Ieung => None,
        Jongseong::Cieuc => Some((Jongseong::Empty, Choseong::Cieuc)),
        Jongseong::Chieuch => Some((Jongseong::Empty, Choseong::Chieuch)),
        Jongseong::Khieukh => Some((Jongseong::Empty, Choseong::Khieukh)),
        Jongseong::Thieuth => Some((Jongseong::Empty, Choseong::Thieuth)),
        Jongseong::Phieuph => Some((Jongseong::Empty, Choseong::Phieuph)),
        Jongseong::Hieuh => if extended {
            Some((Jongseong::Empty, Choseong::Hieuh))
        } else {
            None
        },
    }
}

/// The vowels that palatalize a preceding dental stop.
pub open spec fn is_palatalizing(m: Jungseong) -> bool {
    m == Jungseong::Ya || m == Jungseong::Yae || m == Jungseong::Yeo || m == Jungseong::Ye
        || m == Jungseong::Yo || m == Jungseong::Yu || m == Jungseong::I
}

/// The palatalization exception: under the conservative ruleset a syllable
/// ending in a plain or aspirated dental stop does not push its final onto
/// a following syllable whose vowel palatalizes it.
pub open spec fn palatal_suppressed(cur: Syllable, next: Syllable, extended: bool) -> bool {
    !extended && (cur.jongseong == Jongseong::Tikeut || cur.jongseong == Jongseong::Thieuth)
        && is_palatalizing(next.jungseong)
}

/// The syllable after the pending initial consonant, if any, replaces the
/// decoded initial consonant.
pub open spec fn apply_pending(s: Syllable, pending: Option<Choseong>) -> Syllable {
    match pending {
        Some(c) => Syllable { choseong: c, jungseong: s.jungseong, jongseong: s.jongseong },
        None => s,
    }
}

/// The transformed character stream, one character at a time from the left,
/// with `pending` the initial consonant pushed down by the character before:
/// a character that is not a Hangul syllable passes through verbatim and
/// leaves the pending slot alone; a Hangul character is decoded, takes the
/// pending initial if one waits, consults the rule table when the next
/// character is a Hangul syllable with the silent initial (unless the
/// palatalization exception suppresses it), and is re-encoded.
pub open spec fn transform_seq(s: Seq<char>, pending: Option<Choseong>, extended: bool) -> Seq<char>
    decreases s.len(),
{
    if s.len() == 0 {
        Seq::empty()
    } else if !is_hangul_char(s[0]) {
        seq![s[0]] + transform_seq(s.skip(1), pending, extended)
    } else {
        let cur = apply_pending(decompose_char(s[0]), pending);
        if s.len() == 1 || !is_hangul_char(s[1]) {
            seq![compose_char(cur)] + transform_seq(s.skip(1), None, extended)
        } else {
            let next = decompose_char(s[1]);
            if next.choseong == Choseong::Ieung && !palatal_suppressed(cur, next, extended) {
                match rule_lookup(cur.jongseong, extended) {
                    Some(rule) => seq![
                        compose_char(
                            (Syllable {
                                choseong: cur.choseong,
                                jungseong: cur.jungseong,
                                jongseong: rule.0,
                            }),
                        ),
                    ] + transform_seq(s.skip(1), Some(rule.1), extended),
                    None => seq![compose_char(cur)] + transform_seq(s.skip(1), None, extended),
                }
            } else {
                seq![compose_char(cur)] + transform_seq(s.skip(1), None, extended)
            }
        }
    }
}

/// The transform never reorders, inserts or deletes characters: the output
/// has exactly one character for each input character, in the same order,
/// and every input character that is not a Hangul syllable reappears
/// unchanged at its own position.
pub proof fn lemma_transform_preserves_shape(
    s: Seq<char>,
    pending: Option<Choseong>,
    extended: bool,
)
    ensures
        transform_seq(s, pending, extended).len() == s.len(),
        forall|i: int|
            0 <= i < s.len() && !is_hangul_char(s[i]) ==> #[trigger] transform_seq(
                s,
                pending,
                extended,
            )[i] == s[i],
    decreases s.len(),
{
    if s.len() == 0 {
    } else {
        if !is_hangul_char(s[0]) {
            lemma_transform_preserves_shape(s.skip(1), pending, extended);
        } else {
            let cur = apply_pending(decompose_char(s[0]), pending);
            if s.len() == 1 || !is_hangul_char(s[1]) {
                lemma_transform_preserves_shape(s.skip(1), None, extended);
            } else {
                let next = decompose_char(s[1]);
                if next.choseong == Choseong::Ieung && !palatal_suppressed(cur, next, extended) {
                    match rule_lookup(cur.jongseong, extended) {
                        Some(rule) => {
                            lemma_transform_preserves_shape(s.skip(1), Some(rule.1), extended);
                        },
                        None => {
                            lemma_transform_preserves_shape(s.skip(1), None, extended);
                        },
                    }
                } else {
                    lemma_transform_preserves_shape(s.skip(1), None, extended);
                }
            }
        }
        assert forall|i: int|
            0 <= i < s.len() && !is_hangul_char(s[i]) implies #[trigger] transform_seq(
            s,
            pending,
            extended,
        )[i] == s[i] by {
            if i > 0 {
                assert(s.skip(1)[i - 1] == s[i]);
            }
        }
    }
}

/// The extended-only rule on the final consonant cluster RieulHieuh: before
/// a syllable with the silent initial, the pair of syllables is unchanged
/// under the conservative ruleset; under the extended ruleset the final
/// weakens to Rieul and Hieuh moves into the following initial position.
pub proof fn lemma_extended_only_rieul_hieuh(s1: Syllable, s2: Syllable)
    ensures
        s1.jongseong == Jongseong::RieulHieuh && s2.choseong == Choseong::Ieung ==> transform_seq(
            seq![compose_char(s1), compose_char(s2)],
            None,
            false,
        ) == seq![compose_char(s1), compose_char(s2)],
        s1.jongseong == Jongseong::RieulHieuh && s2.choseong == Choseong::Ieung ==> transform_seq(
            seq![compose_char(s1), compose_char(s2)],
            None,
            true,
        ) == seq![
            compose_char(
                (Syllable {
                    choseong: s1.choseong,
                    jungseong: s1.jungseong,
                    jongseong: Jongseong::Rieul,
                }),
            ),
            compose_char(
                (Syllable {
                    choseong: Choseong::Hieuh,
                    jungseong: s2.jungseong,
                    jongseong: s2.jongseong,
                }),
            ),
        ],
{
    if s1.jongseong == Jongseong::RieulHieuh && s2.choseong == Choseong::Ieung {
        lemma_syllable_round_trip(s1);
        lemma_syllable_round_trip(s2);
        let c1 = compose_char(s1);
        let c2 = compose_char(s2);
        let s = seq![c1, c2];
        assert(s.skip(1) =~= seq![c2]);
        assert(seq![c2].skip(1) =~= Seq::<char>::empty());
        assert(transform_seq(Seq::<char>::empty(), None::<Choseong>, false)
            == Seq::<char>::empty());
        assert(transform_seq(Seq::<char>::empty(), None::<Choseong>, true)
            == Seq::<char>::empty());
        assert(transform_seq(seq![c2], None, false) =~= seq![c2]);
        assert(transform_seq(seq![c2], None, true) =~= seq![c2]);
        assert(transform_seq(s, None, false) =~= seq![c1, c2]);
        let shifted1 = Syllable {
            choseong: s1.choseong,
            jungseong: s1.jungseong,
            jongseong: Jongseong::Rieul,
        };
        let shifted2 = Syllable {
            choseong: Choseong::Hieuh,
            jungseong: s2.jungseong,
            jongseong: s2.jongseong,
        };
        assert(transform_seq(Seq::<char>::empty(), Some(Choseong::Hieuh), true)
            == Seq::<char>::empty());
        assert(transform_seq(seq![c2], Some(Choseong::Hieuh), true) =~= seq![compose_char(
            shifted2,
        )]);
        assert(transform_seq(s, None, true) =~= seq![compose_char(shifted1), compose_char(
            shifted2,
        )]);
    }
}

/// The exec mirror of the rule table.
fn rule_lookup_exec(j: Jongseong, extended: bool) -> (r: Option<(Jongseong, Choseong)>)
    ensures
        r == rule_lookup(j, extended),
{
    match j {
        Jongseong::Empty => None,
        Jongseong::Kiyeok => Some((Jongseong::Empty, Choseong::Kiyeok)),
        Jongseong::SsangKiyeok => Some((Jongseong::Empty, Choseong::SsangKiyeok)),
        Jongseong::KiyeokSios => Some((Jongseong::Kiyeok, Choseong::Sios)),
        Jongseong::Nieun => Some((Jongseong::Empty, Choseong::Nieun)),
        Jongseong::NieunCieuc => Some((Jongseong::Nieun, Choseong::Cieuc)),
        Jongseong::NieunHieuh => if extended {
            Some((Jongseong::Nieun, Choseong::Hieuh))
        } else {
            None
        },
        Jongseong::Tikeut => Some((Jongseong::Empty, Choseong::Tikeut)),
        Jongseong::Rieul => Some((Jongseong::Empty, Choseong::Rieul)),
        Jongseong::RieulKiyeok => Some((Jongseong::Rieul, Choseong::Kiyeok)),
        Jongseong::RieulMieum => Some((Jongseong::Rieul, Choseong::Mieum)),
        Jongseong::RieulPieup => Some((Jongseong::Rieul, Choseong::Pieup)),
        Jongseong::RieulSios => Some((Jongseong::Rieul, Choseong::Sios)),
        Jongseong::RieulThieuth => Some((Jongseong::Rieul, Choseong::Thieuth)),
        Jongseong::RieulPhieuph => Some((Jongseong::Rieul, Choseong::Phieuph)),
        Jongseong::RieulHieuh => if extended {
            Some((Jongseong::Rieul, Choseong::Hieuh))
        } else {
            None
        },
        Jongseong::Mieum => Some((Jongseong::Empty, Choseong::Mieum)),
        Jongseong::Pieup => Some((Jongseong::Empty, Choseong::Pieup)),
        Jongseong::PieupSios => Some((Jongseong::Pieup, Choseong::Sios)),
        Jongseong::Sios => Some((Jongseong::Empty, Choseong::Sios)),
        Jongseong::SsangSios => Some((Jongseong::Empty, Choseong::SsangSios)),
        Jongseong::Ieung => None,
        Jongseong::Cieuc => Some((Jongseong::Empty, Choseong::Cieuc)),
        Jongseong::Chieuch => Some((Jongseong::Empty, Choseong::Chieuch)),
        Jongseong::Khieukh => Some((Jongseong::Empty, Choseong::Khieukh)),
        Jongseong::Thieuth => Some((Jongseong::Empty, Choseong::Thieuth)),
        Jongseong::Phieuph => Some((Jongseong::Empty, Choseong::Phieuph)),
        Jongseong::Hieuh => if extended {
            Some((Jongseong::Empty, Choseong::Hieuh))
        } else {
            None
        },
    }
}

/// The exec mirror of the palatalizing-vowel test.
fn is_palatal_vowel(m: Jungseong) -> (r: bool)
    ensures
        r == is_palatalizing(m),
{
    match m {
        Jungseong::Ya | Jungseong::Yae | Jungseong::Yeo | Jungseong::Ye | Jungseong::Yo
            | Jungseong::Yu | Jungseong::I => true,
        _ => false,
    }
}

/// Applies the liaison transform to a text with the chosen ruleset: Hangul
/// syllables are rewritten as `transform_seq` describes, every other
/// character passes through unchanged, and the character count is kept.
pub fn pushdown_jongseong_config(source: &str, extended_flag: bool) -> (destination: String)
    ensures
        destination@ == transform_seq(source@, None::<Choseong>, extended_flag),
        destination@.len() == source@.len(),
        forall|i: int|
            0 <= i < source@.len() && !is_hangul_char(source@[i]) ==> destination@[i]
                == source@[i],
{
    let len = source.unicode_len();
    let mut destination = String::new();
    let mut new_choseong: Option<Choseong> = None;
    let mut i: usize = 0;
    proof {
        assert(source@.skip(0) =~= source@);
        assert(Seq::<char>::empty() + transform_seq(source@, None::<Choseong>, extended_flag)
            =~= transform_seq(source@, None::<Choseong>, extended_flag));
    }
    while i < len
        invariant
            len == source@.len(),
            i <= len,
            transform_seq(source@, None::<Choseong>, extended_flag) == destination@
                + transform_seq(source@.skip(i as int), new_choseong, extended_flag),
        decreases len - i,
    {
        let ghost pre_dest = destination@;
        let ghost pre_pending = new_choseong;
        let ghost rest = source@.skip(i as int);
        proof {
            assert(rest[0] == source@[i as int]);
            assert(rest.skip(1) =~= source@.skip(i as int + 1));
        }
        let current = source.get_char(i);
        if !Syllable::is_one_of_us(current) {
            destination.push(current);
            proof {
                assert(transform_seq(rest, pre_pending, extended_flag) == seq![current]
                    + transform_seq(rest.skip(1), new_choseong, extended_flag));
                assert(pre_dest.push(current) + transform_seq(
                    source@.skip(i as int + 1),
                    new_choseong,
                    extended_flag,
                ) =~= pre_dest + transform_seq(rest, pre_pending, extended_flag));
            }
        } else {
            let decoded = match Syllable::try_from_char(current) {
                Ok(s) => s,
                Err(_) => unreached(),
            };
            let cur = match new_choseong {
                Some(c) => Syllable {
                    choseong: c,
                    jungseong: decoded.jungseong,
                    jongseong: decoded.jongseong,
                },
                None => decoded,
            };
            new_choseong = None;
            let mut out_syl = cur;
            if i + 1 < len {
                let next_char = source.get_char(i + 1);
                if Syllable::is_one_of_us(next_char) {
                    let next_syllable = match Syllable::try_from_char(next_char) {
                        Ok(s) => s,
                        Err(_) => unreached(),
                    };
                    let suppressed = !extended_flag && (cur.jongseong == Jongseong::Tikeut
                        || cur.jongseong == Jongseong::Thieuth) && is_palatal_vowel(
                        next_syllable.jungseong,
                    );
                    if next_syllable.choseong == Choseong::Ieung && !suppressed {
                        match rule_lookup_exec(cur.jongseong, extended_flag) {
                            Some(rule) => {
                                out_syl = Syllable {
                                    choseong: cur.choseong,
                                    jungseong: cur.jungseong,
                                    jongseong: rule.0,
                                };
                                new_choseong = Some(rule.1);
                            },
                            None => {},
                        }
                    }
                }
            }
            let encoded = out_syl.to_char();
            destination.push(encoded);
            proof {
                assert(cur == apply_pending(decompose_char(rest[0]), pre_pending));
                assert(transform_seq(rest, pre_pending, extended_flag) == seq![compose_char(
                    out_syl,
                )] + transform_seq(rest.skip(1), new_choseong, extended_flag));
                assert(pre_dest.push(encoded) + transform_seq(
                    source@.skip(i as int + 1),
                    new_choseong,
                    extended_flag,
                ) =~= pre_dest + transform_seq(rest, pre_pending, extended_flag));
            }
        }
        i += 1;
    }
    proof {
        assert(source@.skip(len as int) =~= Seq::<char>::empty());
        assert(destination@ + transform_seq(
            source@.skip(len as int),
            new_choseong,
            extended_flag,
        ) =~= destination@);
        lemma_transform_preserves_shape(source@, None::<Choseong>, extended_flag);
    }
    destination
}

/// Applies the liaison transform with the conservative ruleset only:
/// equivalent to `pushdown_jongseong_config` with the extended flag off.
pub fn pushdown_jongseong(source: &str) -> (destination: String)
    ensures
        destination@ == transform_seq(source@, None::<Choseong>, false),
        destination@.len() == source@.len(),
        forall|i: int|
            0 <= i < source@.len() && !is_hangul_char(source@[i]) ==> destination@[i]
                == source@[i],
{
    pushdown_jongseong_config(source, false)
}

} // verus!
