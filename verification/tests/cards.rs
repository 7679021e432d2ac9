use headlines::card::NewsCardData;
use headlines::reader::{Headlines, ARTICLE_COUNT};

#[test]
fn numbered_card_zero() {
    let card = NewsCardData::numbered(0);
    assert_eq!(card.title, "title0");
    assert_eq!(card.desc, "desc0");
    assert_eq!(card.url, "https://example.com/0");
}

#[test]
fn numbered_card_with_several_digits() {
    let card = NewsCardData::numbered(1234);
    assert_eq!(card.title, "title1234");
    assert_eq!(card.desc, "desc1234");
    assert_eq!(card.url, "https://example.com/1234");
}

#[test]
fn new_reader_has_the_configured_count() {
    assert_eq!(ARTICLE_COUNT, 20);
    let reader = Headlines::new();
    assert_eq!(reader.articles().len(), 20);
    assert_eq!(reader.articles().len(), ARTICLE_COUNT as usize);
}

#[test]
fn new_reader_numbers_its_cards_from_zero() {
    let reader = Headlines::new();
    for (i, card) in reader.articles().iter().enumerate() {
        assert_eq!(card.title, format!("title{}", i));
        assert_eq!(card.desc, format!("desc{}", i));
        assert_eq!(card.url, format!("https://example.com/{}", i));
    }
}

#[test]
fn first_and_last_cards() {
    let reader = Headlines::new();
    let cards = reader.articles();
    assert_eq!(
        cards[0],
        NewsCardData {
            title: "title0".to_string(),
            desc: "desc0".to_string(),
            url: "https://example.com/0".to_string(),
        }
    );
    assert_eq!(
        cards[19],
        NewsCardData {
            title: "title19".to_string(),
            desc: "desc19".to_string(),
            url: "https://example.com/19".to_string(),
        }
    );
}

#[test]
fn card_fields_are_not_empty() {
    let reader = Headlines::new();
    for card in reader.articles() {
        assert!(!card.title.is_empty());
        assert!(!card.desc.is_empty());
        assert!(!card.url.is_empty());
    }
}

#[test]
fn two_readers_hold_the_same_cards() {
    let a = Headlines::new();
    let b = Headlines::new();
    assert_eq!(a.articles(), b.articles());
}

#[test]
fn reader_name() {
    assert_eq!(Headlines::new().name(), "Headlines");
}
