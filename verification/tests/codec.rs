use jongseong_pushdown::{Choseong, Error, Jongseong, Jungseong, Syllable};

#[test]
fn test_from_syllable_for_char() {
    assert_eq!(
        Syllable {
            choseong: Choseong::Ieung,
            jungseong: Jungseong::I,
            jongseong: Jongseong::Rieul,
        }
        .to_char(),
        '일'
    );
    assert_eq!(
        Syllable {
            choseong: Choseong::Sios,
            jungseong: Jungseong::Eo,
            jongseong: Jongseong::Nieun,
        }
        .to_char(),
        '선'
    );
}

#[test]
fn test_tryfrom_char_for_syllable() {
    assert_eq!(Syllable::try_from_char('@'), Err(Error::NonKorean));
    assert_eq!(Syllable::try_from_char('E'), Err(Error::NonKorean));
    assert_eq!(Syllable::try_from_char('𝄞'), Err(Error::NonKorean));
    assert_eq!(
        Syllable::try_from_char('영'),
        Ok(Syllable {
            choseong: Choseong::Ieung,
            jungseong: Jungseong::Yeo,
            jongseong: Jongseong::Ieung,
        })
    );
    assert_eq!(
        Syllable::try_from_char('선'),
        Ok(Syllable {
            choseong: Choseong::Sios,
            jungseong: Jungseong::Eo,
            jongseong: Jongseong::Nieun,
        })
    );
}

#[test]
fn round_trip_every_syllable() {
    let mut code: u32 = 0xAC00;
    while code <= 0xD7A3 {
        let c = char::from_u32(code).unwrap();
        let syllable = Syllable::try_from_char(c).unwrap();
        assert_eq!(syllable.to_char(), c);
        code += 1;
    }
}

#[test]
fn rejects_characters_outside_range() {
    // both boundaries, ASCII, Latin, and a non-BMP character
    assert_eq!(Syllable::try_from_char('\u{ABFF}'), Err(Error::NonKorean));
    assert_eq!(Syllable::try_from_char('\u{D7A4}'), Err(Error::NonKorean));
    assert_eq!(Syllable::try_from_char('a'), Err(Error::NonKorean));
    assert_eq!(Syllable::try_from_char('é'), Err(Error::NonKorean));
    assert_eq!(Syllable::try_from_char('\u{10000}'), Err(Error::NonKorean));
    assert!(Syllable::try_from_char('\u{AC00}').is_ok());
    assert!(Syllable::try_from_char('\u{D7A3}').is_ok());
}

#[test]
fn is_one_of_us_boundaries() {
    assert!(!Syllable::is_one_of_us('\u{ABFF}'));
    assert!(Syllable::is_one_of_us('\u{AC00}'));
    assert!(Syllable::is_one_of_us('\u{D7A3}'));
    assert!(!Syllable::is_one_of_us('\u{D7A4}'));
}

#[test]
fn error_message() {
    let err = Syllable::try_from_char('@').unwrap_err();
    assert_eq!(err.message(), "Given character is not Korean");
}

#[test]
fn decomposes_into_components() {
    let syllable = Syllable::try_from_char('잌').unwrap();
    assert_eq!(syllable.choseong, Choseong::Ieung);
    assert_eq!(syllable.jungseong, Jungseong::I);
    assert_eq!(syllable.jongseong, Jongseong::Khieukh);
}
