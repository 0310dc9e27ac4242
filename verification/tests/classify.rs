//! The language of a card, from its heading.

use daumdic::Lang;

#[test]
fn known_prefixes_stand_for_their_languages() {
    assert_eq!(Lang::from_label("한국"), Lang::Korean);
    assert_eq!(Lang::from_label("영"), Lang::English);
    assert_eq!(Lang::from_label("일"), Lang::Japanese);
    assert_eq!(Lang::from_label("한자"), Lang::Hanja);
}

#[test]
fn headings_of_the_site_are_told_apart() {
    assert_eq!(Lang::from_label("한국어사전"), Lang::Korean);
    assert_eq!(Lang::from_label("영어사전"), Lang::English);
    assert_eq!(Lang::from_label("일본어사전"), Lang::Japanese);
    assert_eq!(Lang::from_label("한자사전"), Lang::Hanja);
}

#[test]
fn other_headings_are_kept_unchanged() {
    for label in ["중국어사전", "베트남어사전", "", "한", "한글", " 한국어사전", "국한", "English", "자한", "영\u{0301}"] {
        let expected = if label == "영\u{0301}" { Lang::English } else { Lang::Other(label.to_string()) };
        assert_eq!(Lang::from_label(label), expected, "{:?}", label);
    }
}

#[test]
fn heading_is_matched_by_characters_not_bytes() {
    // '한' and '핝' share their first two bytes in UTF-8.
    assert_eq!(Lang::from_label("핝국"), Lang::Other("핝국".to_string()));
    assert_eq!(Lang::from_label("영"), Lang::English);
    assert_eq!(Lang::from_label("엿"), Lang::Other("엿".to_string()));
}

#[test]
fn copy_of_a_language_equals_it() {
    for lang in [Lang::Korean, Lang::English, Lang::Japanese, Lang::Hanja, Lang::Other("중국어사전".to_string())] {
        assert_eq!(lang.clone(), lang);
    }
    assert_ne!(Lang::Other("a".to_string()), Lang::Other("b".to_string()));
    assert_ne!(Lang::Korean, Lang::Hanja);
}
