use jongseong_pushdown::{pushdown_jongseong, pushdown_jongseong_config};

#[test]
fn test_pushdown_jongseong() {
    assert_eq!(
        pushdown_jongseong("?????? ?????? ??????"),
        "?????? ?????? ??????".to_owned()
    );
    assert_eq!(
        pushdown_jongseong("?????? ?????? ?????????!"),
        "?????? ?????? ?????????!".to_owned()
    );
    assert_eq!(
        pushdown_jongseong("?????? ?????? ?????????!"),
        "?????? ?????? ?????????!".to_owned()
    );
    assert_eq!(
        pushdown_jongseong("???????????? ?????????!"),
        "???????????? ?????????!".to_owned()
    );
    assert_eq!(
        pushdown_jongseong("??? ????????? ??????????????? ????????????"),
        "??? ????????? ??????????????? ????????????".to_owned()
    );
    assert_eq!(
        pushdown_jongseong("??? ????????? ??????????????? ????????????"),
        "??? ????????? ??????????????? ????????????".to_owned()
    );
    assert_eq!(
        pushdown_jongseong("????????? ?????? ????????? ??????"),
        "????????? ?????? ????????? ??????".to_owned()
    );

    assert_eq!(
        pushdown_jongseong_config("?????? ?????? ?????????!", true),
        "?????? ?????? ?????????!".to_owned()
    );
    assert_eq!(
        pushdown_jongseong_config("??? ????????? ??????????????? ????????????", true),
        "??? ????????? ??????????????? ????????????".to_owned()
    );
    assert_eq!(
        pushdown_jongseong_config("????????? ?????? ????????? ??????", true),
        "????????? ?????? ????????? ??????".to_owned()
    );
}

#[test]
fn liaison_scenarios_conservative() {
    // final Kiyeok moves onto the silent initial
    assert_eq!(pushdown_jongseong("국어"), "구거".to_owned());
    // final Pieup moves onto the silent initial
    assert_eq!(pushdown_jongseong("밥이"), "바비".to_owned());
    // the RieulKiyeok cluster splits: Rieul stays, Kiyeok moves
    assert_eq!(pushdown_jongseong("닭이"), "달기".to_owned());
    // the palatalization exception suppresses the shift of final Tikeut
    assert_eq!(pushdown_jongseong("굳이"), "굳이".to_owned());
}

#[test]
fn palatalization_gate_extended() {
    assert_eq!(pushdown_jongseong_config("굳이", false), "굳이".to_owned());
    assert_eq!(pushdown_jongseong_config("굳이", true), "구디".to_owned());
    assert_eq!(pushdown_jongseong_config("같이", false), "같이".to_owned());
    assert_eq!(pushdown_jongseong_config("같이", true), "가티".to_owned());
}

#[test]
fn extended_only_rows() {
    // final RieulHieuh: untouched conservatively, Rieul stays and Hieuh
    // moves when extended
    assert_eq!(pushdown_jongseong_config("닳아", false), "닳아".to_owned());
    assert_eq!(pushdown_jongseong_config("닳아", true), "달하".to_owned());
    // final NieunHieuh
    assert_eq!(pushdown_jongseong_config("않아", false), "않아".to_owned());
    assert_eq!(pushdown_jongseong_config("않아", true), "안하".to_owned());
    // final Hieuh
    assert_eq!(pushdown_jongseong_config("좋아", false), "좋아".to_owned());
    assert_eq!(pushdown_jongseong_config("좋아", true), "조하".to_owned());
}

#[test]
fn passthrough_and_length() {
    assert_eq!(
        pushdown_jongseong("no hangul at all!"),
        "no hangul at all!".to_owned()
    );
    assert_eq!(pushdown_jongseong(""), String::new());
    let mixed = "ab 국어, cd";
    let out = pushdown_jongseong(mixed);
    assert_eq!(out, "ab 구거, cd".to_owned());
    assert_eq!(out.chars().count(), mixed.chars().count());
}

#[test]
fn lookahead_edges() {
    // a trailing syllable has no successor and is emitted unchanged
    assert_eq!(pushdown_jongseong("국"), "국".to_owned());
    // a non-Hangul successor blocks the rule
    assert_eq!(pushdown_jongseong("국a어"), "국a어".to_owned());
}

#[test]
fn pending_initial_chains() {
    // the pushed-down initial lands on the next syllable, which can then
    // push its own final one step further
    assert_eq!(pushdown_jongseong("맑은"), "말근".to_owned());
    assert_eq!(pushdown_jongseong("믿음이"), "미드미".to_owned());
}
