//! Reading result pages: which words and suggestions a page stands for.

use daumdic::markup::MAX_PAGE_BYTES;
use daumdic::{extract, parse, parse_with, search, DictionaryError, Lang, Markers, Search, Word};

fn text(value: &str) -> String {
    value.to_string()
}

fn texts(values: &[&str]) -> Vec<String> {
    values.iter().map(|value| value.to_string()).collect()
}

const KOREAN_PAGE: &str = "<html><body>\
    <div class=\"card_word\"><h4 class=\"tit_word\">한국어사전</h4>\
    <div class=\"search_type\"><a class=\"txt_searchword\">독수리</a>\
    <span class=\"txt_pronounce\">[-쑤-]</span>\
    <ul><li><span class=\"txt_search\">수릿과에 속한 큰 새</span></li></ul></div></div>\
    </body></html>";

#[test]
fn korean_card_with_one_item() {
    let found = parse(KOREAN_PAGE).unwrap();
    assert_eq!(found.words.len(), 1);
    assert_eq!(found.words[0].word, "독수리");
    assert_eq!(found.words[0].lang, Lang::Korean);
    assert!(found.words[0].pronounce.is_some());
    assert!(!found.words[0].meaning.is_empty());
    assert_eq!(
        found.words[0],
        Word {
            word: text("독수리"),
            meaning: texts(&["수릿과에 속한 큰 새"]),
            pronounce: Some(text("[-쑤-]")),
            lang: Lang::Korean,
        }
    );
    assert!(found.alternatives.is_empty());
}

#[test]
fn only_suggestions() {
    let html = "<html><body><div class=\"speller\">\
        <a class=\"link_speller\" href=\"/search.do?q=resist\">resist</a></div></body></html>";
    let found = parse(html).unwrap();
    assert_eq!(found.words, Vec::<Word>::new());
    assert_eq!(found.alternatives, texts(&["resist"]));
}

#[test]
fn unknown_heading_is_kept_as_it_is() {
    let html = "<div class=\"card_word\"><h4 class=\"tit_word\">중국어사전</h4>\
        <div class=\"cleanword_type\"><a class=\"txt_cleansch\">加油站</a>\
        <span class=\"txt_search\">주유소</span></div></div>";
    let found = parse(html).unwrap();
    assert_eq!(found.words.len(), 1);
    assert_eq!(found.words[0].lang, Lang::Other(text("중국어사전")));
}

#[test]
fn reading_twice_gives_equal_results() {
    let first = parse(KOREAN_PAGE);
    let second = parse(KOREAN_PAGE);
    assert_eq!(first, second);
    let markers = Markers::compile().unwrap();
    assert_eq!(extract(KOREAN_PAGE, &markers), extract(KOREAN_PAGE, &markers));
    assert_eq!(parse(KOREAN_PAGE).unwrap(), extract(KOREAN_PAGE, &markers));
}

#[test]
fn nothing_on_the_page_is_no_error() {
    for html in [
        "",
        "plain text, no markup",
        "<html><head><title>t</title></head><body><p>no cards</p></body></html>",
        "<div class=\"card_word\"></div>",
        "<div class=\"card_word\"><h4 class=\"tit_word\">영어사전</h4></div>",
        "<div><p>unclosed <b>tags <i>everywhere",
        "<<<>>> &amp; &bogus; </div></span>",
    ] {
        let found = parse(html);
        assert_eq!(found, Ok(Search { words: Vec::new(), alternatives: Vec::new() }), "{:?}", html);
    }
}

#[test]
fn card_without_heading_is_skipped() {
    let html = "<div class=\"card_word\">\
        <div class=\"search_type\"><a class=\"txt_searchword\">lost</a></div></div>\
        <div class=\"card_word\"><h4 class=\"tit_word\">영어사전</h4>\
        <div class=\"search_type\"><a class=\"txt_searchword\">kept</a></div></div>";
    let found = parse(html).unwrap();
    assert_eq!(found.words.len(), 1);
    assert_eq!(found.words[0].word, "kept");
    assert_eq!(found.words[0].lang, Lang::English);
}

#[test]
fn first_heading_of_a_card_decides() {
    let html = "<div class=\"card_word\"><h4 class=\"tit_word\">일본어사전</h4>\
        <h4 class=\"tit_word\">영어사전</h4>\
        <div class=\"search_type\"><a class=\"txt_searchword\">あと</a></div></div>";
    let found = parse(html).unwrap();
    assert_eq!(found.words[0].lang, Lang::Japanese);
}

#[test]
fn every_item_with_a_headword_gives_a_word() {
    let html = "<div class=\"card_word\"><h4 class=\"tit_word\">영어사전</h4>\
        <div class=\"search_type\"><span class=\"txt_search\">no headword here</span></div>\
        <div class=\"cleanword_type\"><a class=\"txt_cleansch\">zoo</a>\
        <span class=\"txt_search\">동물원</span></div>\
        <div class=\"search_type\"><a class=\"txt_searchword\">zoology</a>\
        <span class=\"txt_pronounce\">[zouɑ́lədʒi]</span>\
        <span class=\"txt_search\">동물학</span><span class=\"txt_search\">동물상</span></div>\
        </div>";
    let found = parse(html).unwrap();
    assert_eq!(
        found.words,
        vec![
            Word { word: text("zoo"), meaning: texts(&["동물원"]), pronounce: None, lang: Lang::English },
            Word {
                word: text("zoology"),
                meaning: texts(&["동물학", "동물상"]),
                pronounce: Some(text("[zouɑ́lədʒi]")),
                lang: Lang::English,
            },
        ]
    );
}

#[test]
fn items_of_several_cards_come_card_by_card() {
    let html = "<div class=\"card_word\"><h4 class=\"tit_word\">영어사전</h4>\
        <div class=\"search_type\"><a class=\"txt_searchword\">a1</a></div>\
        <div class=\"search_type\"><a class=\"txt_searchword\">a2</a></div></div>\
        <div class=\"card_word\"><div class=\"search_type\"><a class=\"txt_searchword\">lost</a></div></div>\
        <div class=\"card_word\"><h4 class=\"tit_word\">일본어사전</h4>\
        <div class=\"search_type\"><a class=\"txt_searchword\">b1</a></div>\
        <div class=\"search_type\"></div>\
        <div class=\"cleanword_type\"><a class=\"txt_cleansch\">b2</a></div></div>";
    let found = parse(html).unwrap();
    let seen: Vec<(&str, &Lang)> = found.words.iter().map(|word| (word.word.as_str(), &word.lang)).collect();
    assert_eq!(
        seen,
        vec![
            ("a1", &Lang::English),
            ("a2", &Lang::English),
            ("b1", &Lang::Japanese),
            ("b2", &Lang::Japanese),
        ]
    );
}

#[test]
fn card_without_any_headword_gives_no_word() {
    let html = "<div class=\"card_word\"><h4 class=\"tit_word\">영어사전</h4>\
        <div class=\"search_type\"><span class=\"txt_search\">뜻</span></div>\
        <div class=\"search_type\"><span class=\"txt_pronounce\">[x]</span></div></div>";
    let found = parse(html).unwrap();
    assert!(found.words.is_empty());
}

#[test]
fn cards_come_in_the_order_of_the_page() {
    let html = "<div class=\"card_word\"><h4 class=\"tit_word\">영어사전</h4>\
        <div class=\"search_type\"><a class=\"txt_searchword\">bang</a></div></div>\
        <div class=\"card_word\"><h4 class=\"tit_word\">한국어사전</h4>\
        <div class=\"search_type\"><a class=\"txt_searchword\">방</a></div></div>\
        <div class=\"card_word\"><h4 class=\"tit_word\">한자사전</h4>\
        <div class=\"search_type\"><a class=\"txt_hanjaword\">方</a></div></div>\
        <div class=\"card_word\"><h4 class=\"tit_word\">베트남어사전</h4>\
        <div class=\"search_type\"><a class=\"txt_searchword\">phòng</a></div></div>";
    let found = parse(html).unwrap();
    let seen: Vec<(String, Lang)> =
        found.words.iter().map(|word| (word.word.clone(), word.lang.clone())).collect();
    assert_eq!(
        seen,
        vec![
            (text("bang"), Lang::English),
            (text("방"), Lang::Korean),
            (text("方"), Lang::Hanja),
            (text("phòng"), Lang::Other(text("베트남어사전"))),
        ]
    );
}

/// A card of the English dictionary around one item.
fn english_card(item: &str) -> String {
    format!(
        "<div class=\"card_word\"><h4 class=\"tit_word\">영어사전</h4>\
         <div class=\"search_type\">{}</div></div>",
        item
    )
}

#[test]
fn cleaned_headword_is_preferred() {
    let html = "<div class=\"card_word\"><h4 class=\"tit_word\">영어사전</h4>\
        <div class=\"search_type\"><a class=\"txt_hanjaword\">third</a>\
        <a class=\"txt_searchword\">second</a><a class=\"txt_cleansch\">first</a></div>\
        <div class=\"search_type\"><a class=\"txt_hanjaword\">third</a>\
        <a class=\"txt_searchword\">second</a></div>\
        <div class=\"search_type\"><a class=\"txt_hanjaword\">third</a></div></div>";
    let found = parse(html).unwrap();
    let seen: Vec<&str> = found.words.iter().map(|word| word.word.as_str()).collect();
    assert_eq!(seen, vec!["first", "second", "third"]);
}

#[test]
fn reading_is_preferred_to_transcription() {
    let html = "<div class=\"card_word\"><h4 class=\"tit_word\">일본어사전</h4>\
        <div class=\"search_type\"><a class=\"txt_searchword\">後</a>\
        <span class=\"txt_pronounce\">[ato]</span><span class=\"sub_read\">あと</span></div>\
        <div class=\"search_type\"><a class=\"txt_searchword\">跡</a>\
        <span class=\"txt_pronounce\">[ato]</span></div></div>";
    let found = parse(html).unwrap();
    assert_eq!(found.words.len(), 2);
    assert_eq!(found.words[0].pronounce, Some(text("あと")));
    assert_eq!(found.words[1].pronounce, Some(text("[ato]")));
}

#[test]
fn missing_pronunciation_is_not_an_empty_one() {
    let html = "<div class=\"card_word\"><h4 class=\"tit_word\">영어사전</h4>\
        <div class=\"search_type\"><a class=\"txt_searchword\">silent</a>\
        <span class=\"txt_pronounce\"></span></div>\
        <div class=\"search_type\"><a class=\"txt_searchword\">absent</a></div></div>";
    let found = parse(html).unwrap();
    assert_eq!(found.words.len(), 2);
    assert_eq!(found.words[0].pronounce, Some(String::new()));
    assert_eq!(found.words[1].pronounce, None);
}

#[test]
fn item_without_meaning_is_kept() {
    let html = "<div class=\"card_word\"><h4 class=\"tit_word\">영어사전</h4>\
        <div class=\"search_type\"><a class=\"txt_searchword\">see also</a></div></div>";
    let found = parse(html).unwrap();
    assert_eq!(found.words.len(), 1);
    assert_eq!(found.words[0].meaning, Vec::<String>::new());
}

#[test]
fn empty_headword_gives_no_word() {
    let html = english_card(
        "<a class=\"txt_cleansch\"></a><a class=\"txt_searchword\">ignored</a>\
         <span class=\"txt_search\">뜻</span>",
    );
    let found = parse(&html).unwrap();
    assert!(found.words.is_empty());
}

#[test]
fn text_of_nested_elements_is_joined_without_separator() {
    let html = "<div class=\"card_word\"><h4 class=\"tit_word\"><span>영어</span><b>사전</b></h4>\
        <div class=\"search_type\"><a class=\"txt_searchword\">re<span class=\"txt_emph1\">sis</span>t</a>\
        <span class=\"txt_search\">저항<daum:word id=\"ekw1\">하다</daum:word> &amp; 참다</span></div></div>\
        <a class=\"link_speller\">re<b>sis</b>tance</a>";
    let found = parse(html).unwrap();
    assert_eq!(found.words[0].word, "resist");
    assert_eq!(found.words[0].meaning, texts(&["저항하다 & 참다"]));
    assert_eq!(found.words[0].lang, Lang::English);
    assert_eq!(found.alternatives, texts(&["resistance"]));
}

#[test]
fn suggestions_are_kept_in_order_and_not_merged() {
    let html = "<a class=\"link_speller\">resist</a><div class=\"card_word\">\
        <a class=\"link_speller\">resister</a></div><a class=\"link_speller\">resist</a>";
    let found = parse(html).unwrap();
    assert!(found.words.is_empty());
    assert_eq!(found.alternatives, texts(&["resist", "resister", "resist"]));
}

#[test]
fn words_and_suggestions_may_both_be_there() {
    let html = "<a class=\"link_speller\">독수리과</a>\
        <div class=\"card_word\"><h4 class=\"tit_word\">한국어사전</h4>\
        <div class=\"search_type\"><a class=\"txt_searchword\">독수리</a></div></div>";
    let found = parse(html).unwrap();
    assert_eq!(found.words.len(), 1);
    assert_eq!(found.alternatives, texts(&["독수리과"]));
}

#[test]
fn reading_without_markers_fails() {
    assert_eq!(parse_with(KOREAN_PAGE, &None), Err(DictionaryError::ParsingFailed));
    assert_eq!(parse_with("", &None), Err(DictionaryError::ParsingFailed));
}

#[test]
fn reading_with_markers_is_what_parse_does() {
    let markers = Markers::compile();
    assert!(markers.is_some());
    assert_eq!(parse_with(KOREAN_PAGE, &markers), parse(KOREAN_PAGE));
}

#[test]
fn markers_of_another_site_read_another_page() {
    let mut markers = Markers::compile().unwrap();
    markers.card = scraper::Selector::parse("section.entry").unwrap();
    markers.heading = scraper::Selector::parse("h2").unwrap();
    markers.item = scraper::Selector::parse("li").unwrap();
    markers.cleaned_word = scraper::Selector::parse("b").unwrap();
    markers.gloss = scraper::Selector::parse("i").unwrap();
    markers.alternative = scraper::Selector::parse("a.maybe").unwrap();
    let html = "<section class=\"entry\"><h2>일한사전</h2><ul>\
        <li><b>猫</b><i>고양이</i></li><li><i>no headword</i></li></ul></section>\
        <a class=\"maybe\">犬</a>";
    let found = extract(html, &markers);
    assert_eq!(
        found,
        Search {
            words: vec![Word {
                word: text("猫"),
                meaning: texts(&["고양이"]),
                pronounce: None,
                lang: Lang::Japanese,
            }],
            alternatives: texts(&["犬"]),
        }
    );
    assert_eq!(extract(html, &Markers::compile().unwrap()).words, Vec::<Word>::new());
}

#[test]
fn every_word_found_names_itself() {
    let html = "<div class=\"card_word\"><h4 class=\"tit_word\">영어사전</h4>\
        <div class=\"search_type\"><a class=\"txt_searchword\"></a></div>\
        <div class=\"search_type\"><a class=\"txt_searchword\">a</a></div>\
        <div class=\"search_type\"></div></div>";
    let found = parse(html).unwrap();
    assert_eq!(found.words.len(), 1);
    assert!(found.words.iter().all(|word| !word.word.is_empty()));
}

#[test]
fn text_too_long_for_the_parser_is_not_read() {
    assert_eq!(MAX_PAGE_BYTES, 715_827_882);
    let mut html = String::from(KOREAN_PAGE);
    html.push_str(&" ".repeat(MAX_PAGE_BYTES + 1 - KOREAN_PAGE.len()));
    assert_eq!(html.len(), MAX_PAGE_BYTES + 1);
    let markers = Markers::compile();
    assert!(markers.is_some());
    assert_eq!(parse_with(&html, &markers), Err(DictionaryError::ParsingFailed));
    assert_eq!(parse(&html), Err(DictionaryError::ParsingFailed));
    let query = search("독수리").unwrap();
    assert_eq!(query.complete_with(Ok(html), &markers), Err(DictionaryError::ParsingFailed));
}

#[test]
fn length_is_counted_in_bytes() {
    // Each of these characters takes three bytes.
    let mut html = String::from(KOREAN_PAGE);
    html.push_str(&"한".repeat(300_000));
    assert_eq!(html.len(), KOREAN_PAGE.len() + 900_000);
    let found = parse(&html).unwrap();
    assert_eq!(found.words.len(), 1);
    assert_eq!(found.words[0].word, "독수리");
}

#[test]
fn long_page_within_the_limit_is_read() {
    let mut html = String::from("<!-- ");
    html.push_str(&"\0".repeat(1_000_000));
    html.push_str(" -->");
    html.push_str(KOREAN_PAGE);
    html.push_str(&"<p>filler</p>".repeat(50_000));
    let found = parse(&html).unwrap();
    assert_eq!(found.words.len(), 1);
    assert_eq!(found.words[0].word, "독수리");
    assert!(found.alternatives.is_empty());
}
