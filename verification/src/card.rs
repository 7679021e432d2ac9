//! News cards: the records that the reader shows.

use vstd::prelude::*;
use vstd::string::*;
use crate::decimal::{decimal_digits, decimal_string};

verus! {

/// One news card: a headline, a summary and the address of the full story.
#[derive(Debug, PartialEq, Eq)]
pub struct NewsCardData {
    pub title: String,
    pub desc: String,
    pub url: String,
}

/// The texts of a news card as character sequences.
pub struct NewsCard {
    pub title: Seq<char>,
    pub desc: Seq<char>,
    pub url: Seq<char>,
}

impl View for NewsCardData {
    type V = NewsCard;

    open spec fn view(&self) -> NewsCard {
        NewsCard { title: self.title@, desc: self.desc@, url: self.url@ }
    }
}

impl DeepView for NewsCardData {
    type V = NewsCard;

    open spec fn deep_view(&self) -> NewsCard {
        self@
    }
}

/// The placeholder card with number `i`: every field is a fixed stem followed
/// by `i` in decimal.
pub open spec fn numbered_card(i: nat) -> NewsCard {
    NewsCard {
        title: "title"@ + decimal_digits(i),
        desc: "desc"@ + decimal_digits(i),
        url: "https://example.com/"@ + decimal_digits(i),
    }
}

/// The first `count` placeholder cards, in ascending order of their numbers.
pub open spec fn numbered_cards(count: nat) -> Seq<NewsCard> {
    Seq::new(count, |i: int| numbered_card(i as nat))
}

impl NewsCardData {
    /// Builds the placeholder card with number `i`.
    pub fn numbered(i: u32) -> (card: NewsCardData)
        ensures
            card@ == numbered_card(i as nat),
    {
        let number = decimal_string(i);
        NewsCardData {
            title: String::from_str("title").concat(number.as_str()),
            desc: String::from_str("desc").concat(number.as_str()),
            url: String::from_str("https://example.com/").concat(number.as_str()),
        }
    }
}

} // verus!
