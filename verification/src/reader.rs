//! The reader itself: its list of cards and the plans it hands to the host.

use vstd::prelude::*;
use vstd::string::*;
use crate::card::{numbered_card, numbered_cards, NewsCard, NewsCardData};
use crate::draw::{DrawCommand, TextStyle};
use crate::fonts::{default_fonts, toolkit_fonts, FontFamily, FontPlan, FontPlanModel, StyleFont};
use crate::render::{display_list, render_cards};

verus! {

/// The number of cards that a new reader holds.
pub const ARTICLE_COUNT: u32 = 20;

/// The width of the reader's window when it opens, in logical points.
pub const WINDOW_WIDTH: u32 = 540;

/// The height of the reader's window when it opens, in logical points.
pub const WINDOW_HEIGHT: u32 = 960;

/// Which scroll bars the list of cards has, and along which axes its area
/// shrinks to fit its content.
#[derive(Clone, Copy, Debug, PartialEq, Eq, Structural)]
pub struct ScrollPlan {
    pub horizontal: bool,
    pub vertical: bool,
    pub shrink_width: bool,
    pub shrink_height: bool,
}

/// One frame of the reader: a scroll area that fills the window, and the
/// commands that draw its content.
#[derive(Debug, PartialEq, Eq)]
pub struct FramePlan {
    pub scroll: ScrollPlan,
    pub commands: Vec<DrawCommand>,
}

/// The scroll area of the reader: it scrolls vertically only and never
/// shrinks, so it always fills the window.
pub open spec fn reader_scroll() -> ScrollPlan {
    ScrollPlan { horizontal: false, vertical: true, shrink_width: false, shrink_height: false }
}

/// The fonts of the reader: its own font leads the proportional family, with
/// the fonts that egui lists for that family behind it as fallbacks; headings
/// are set at 35 points and body text at 20.
pub open spec fn reader_fonts() -> FontPlanModel {
    FontPlanModel {
        name: "MesloLGS"@,
        family: FontFamily::Proportional,
        fonts: seq!["MesloLGS"@] + toolkit_fonts(FontFamily::Proportional),
        styles: seq![
            StyleFont { style: TextStyle::Heading, family: FontFamily::Proportional, size: 35 },
            StyleFont { style: TextStyle::Body, family: FontFamily::Proportional, size: 20 },
        ],
    }
}

/// The news reader. It holds its cards from construction on and never changes
/// them.
pub struct Headlines {
    articles: Vec<NewsCardData>,
}

impl View for Headlines {
    type V = Seq<NewsCard>;

    closed spec fn view(&self) -> Seq<NewsCard> {
        self.articles.deep_view()
    }
}

impl Headlines {
    /// Every reader holds exactly the placeholder cards it was made with.
    #[verifier::type_invariant]
    closed spec fn holds_generated_cards(&self) -> bool {
        self.articles.deep_view() == numbered_cards(ARTICLE_COUNT as nat)
    }

    /// A reader with the placeholder cards numbered from zero, in ascending
    /// order.
    pub fn new() -> (reader: Headlines)
        ensures
            reader@ == numbered_cards(ARTICLE_COUNT as nat),
            reader@.len() == ARTICLE_COUNT,
            forall|i: int| 0 <= i < ARTICLE_COUNT ==> #[trigger] reader@[i] == numbered_card(i as nat),
    {
        let mut articles: Vec<NewsCardData> = Vec::new();
        let mut i: u32 = 0;
        while i < ARTICLE_COUNT
            invariant
                i <= ARTICLE_COUNT,
                articles.deep_view() == numbered_cards(i as nat),
            decreases ARTICLE_COUNT - i,
        {
            let ghost before = articles.deep_view();
            articles.push(NewsCardData::numbered(i));
            assert(articles.deep_view() =~= before.push(numbered_card(i as nat)));
            i += 1;
        }
        Headlines { articles }
    }

    /// The cards of the reader, in the order in which they are shown.
    /// Whatever has happened to the reader since it was made, they are the
    /// placeholder cards numbered from zero: none was added, dropped, moved
    /// or rewritten.
    pub fn articles(&self) -> (cards: &Vec<NewsCardData>)
        ensures
            cards.deep_view() == self@,
            self@ == numbered_cards(ARTICLE_COUNT as nat),
    {
        proof {
            use_type_invariant(self);
        }
        &self.articles
    }

    /// The name of the application, as the host shows it.
    pub fn name(&self) -> (name: &'static str)
        ensures
            name@ == "Headlines"@,
    {
        "Headlines"
    }

    /// Prepares the reader for its first frame: all it needs from the host is
    /// its fonts. The cards stay as they are.
    pub fn setup(&mut self) -> (plan: FontPlan)
        ensures
            *final(self) == *old(self),
            plan@ == reader_fonts(),
    {
        self.configure_fonts()
    }

    /// The fonts that the reader asks its host for.
    pub fn configure_fonts(&self) -> (plan: FontPlan)
        ensures
            plan@ == reader_fonts(),
    {
        let mut styles: Vec<StyleFont> = Vec::new();
        styles.push(
            StyleFont { style: TextStyle::Heading, family: FontFamily::Proportional, size: 35 },
        );
        styles.push(
            StyleFont { style: TextStyle::Body, family: FontFamily::Proportional, size: 20 },
        );
        let mut fonts = default_fonts(FontFamily::Proportional);
        fonts.insert(0, String::from_str("MesloLGS"));
        assert(styles@ =~= reader_fonts().styles);
        assert(fonts.deep_view() =~= reader_fonts().fonts);
        FontPlan {
            name: String::from_str("MesloLGS"),
            family: FontFamily::Proportional,
            fonts,
            styles,
        }
    }

    /// The commands that draw the cards, card by card in the order of the
    /// list.
    pub fn render_news_cards(&self) -> (commands: Vec<DrawCommand>)
        ensures
            commands.deep_view() == display_list(self@),
            commands.deep_view() == display_list(numbered_cards(ARTICLE_COUNT as nat)),
    {
        proof {
            use_type_invariant(self);
        }
        render_cards(&self.articles)
    }

    /// The next frame. Drawing a frame leaves the reader as it was.
    pub fn update(&mut self) -> (frame: FramePlan)
        ensures
            *final(self) == *old(self),
            frame.scroll == reader_scroll(),
            frame.commands.deep_view() == display_list(old(self)@),
            frame.commands.deep_view() == display_list(numbered_cards(ARTICLE_COUNT as nat)),
    {
        FramePlan {
            scroll: ScrollPlan {
                horizontal: false,
                vertical: true,
                shrink_width: false,
                shrink_height: false,
            },
            commands: self.render_news_cards(),
        }
    }
}

} // verus!
