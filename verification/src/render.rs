//! From cards to drawing commands: what a card looks like, and how a list of
//! cards becomes the display list of a frame.

use vstd::prelude::*;
use vstd::string::*;
use crate::card::{numbered_cards, NewsCard, NewsCardData};
use crate::decimal::decimal_digits;
use crate::draw::{cyan, white, Color, DrawCommand, DrawModel, Layout, TextStyle, PADDING};

verus! {

/// The number of drawing commands that one card takes.
pub const COMMANDS_PER_CARD: usize = 9;

/// How one card is drawn: its title in white behind a marker, its summary in
/// button style, a cyan link to the full story laid out from the right, and a
/// rule below, each preceded by the same padding.
pub open spec fn card_commands(card: NewsCard) -> Seq<DrawModel> {
    seq![
        DrawModel::Space(PADDING),
        DrawModel::ColoredLabel { color: white(), text: "► "@ + card.title },
        DrawModel::Space(PADDING),
        DrawModel::Label { text: card.desc, style: TextStyle::Button },
        DrawModel::HyperlinkColor(cyan()),
        DrawModel::Space(PADDING),
        DrawModel::Hyperlink {
            label: "read more 🔗"@,
            url: card.url,
            layout: Layout::RightToLeft,
        },
        DrawModel::Space(PADDING),
        DrawModel::Separator,
    ]
}

/// The display list of a list of cards: the commands of the first card, then
/// those of the second, and so on to the last.
pub open spec fn display_list(cards: Seq<NewsCard>) -> Seq<DrawModel> {
    cards.map_values(|card: NewsCard| card_commands(card)).flatten()
}

/// A display list grows by exactly the commands of the card that is added at
/// the end.
pub proof fn lemma_display_list_push(cards: Seq<NewsCard>, card: NewsCard)
    ensures
        display_list(cards.push(card)) == display_list(cards) + card_commands(card),
{
    let each = |card: NewsCard| card_commands(card);
    assert(cards.push(card).map_values(each) =~= cards.map_values(each).push(each(card)));
    cards.map_values(each).lemma_flatten_push(each(card));
}

/// Every card takes the same number of commands, so a display list is that
/// many times as long as the list of cards.
pub proof fn lemma_display_list_len(cards: Seq<NewsCard>)
    ensures
        display_list(cards).len() == COMMANDS_PER_CARD * cards.len(),
    decreases cards.len(),
{
    if cards.len() == 0 {
        assert(cards.map_values(|card: NewsCard| card_commands(card)).len() == 0);
    } else {
        let front = cards.drop_last();
        lemma_display_list_len(front);
        lemma_display_list_push(front, cards.last());
        assert(front.push(cards.last()) =~= cards);
    }
}

/// Drawing follows the order of the list: the `k`-th command of the `i`-th
/// card stands at place `COMMANDS_PER_CARD * i + k` of the display list, so all of a card's
/// commands come after those of the cards before it and before those of the
/// cards behind it.
pub proof fn lemma_display_list_index(cards: Seq<NewsCard>, i: int, k: int)
    requires
        0 <= i < cards.len(),
        0 <= k < COMMANDS_PER_CARD,
    ensures
        COMMANDS_PER_CARD * i + k < display_list(cards).len(),
        display_list(cards)[COMMANDS_PER_CARD * i + k] == card_commands(cards[i])[k],
    decreases cards.len(),
{
    let front = cards.drop_last();
    lemma_display_list_len(front);
    lemma_display_list_len(cards);
    lemma_display_list_push(front, cards.last());
    assert(front.push(cards.last()) =~= cards);
    if i < front.len() {
        lemma_display_list_index(front, i, k);
    }
}

/// A display list shows every card as it is: the title, the summary and the
/// address of the `i`-th card are the texts of the label, the summary line
/// and the link drawn for it.
pub proof fn lemma_display_list_shows_fields(cards: Seq<NewsCard>, i: int)
    requires
        0 <= i < cards.len(),
    ensures
        display_list(cards)[COMMANDS_PER_CARD * i + 1] == (DrawModel::ColoredLabel {
            color: white(),
            text: "► "@ + cards[i].title,
        }),
        display_list(cards)[COMMANDS_PER_CARD * i + 3] == (DrawModel::Label {
            text: cards[i].desc,
            style: TextStyle::Button,
        }),
        display_list(cards)[COMMANDS_PER_CARD * i + 6] == (DrawModel::Hyperlink {
            label: "read more 🔗"@,
            url: cards[i].url,
            layout: Layout::RightToLeft,
        }),
{
    lemma_display_list_index(cards, i, 1);
    lemma_display_list_index(cards, i, 3);
    lemma_display_list_index(cards, i, 6);
}

/// The placeholder cards reach the screen as they were made: the card with
/// number `i` is drawn with its own title, summary and address, at its own
/// place in the display list.
pub proof fn lemma_numbered_cards_shown(count: nat, i: int)
    requires
        0 <= i < count,
    ensures
        display_list(numbered_cards(count)).len() == COMMANDS_PER_CARD * count,
        display_list(numbered_cards(count))[COMMANDS_PER_CARD * i + 1] == (DrawModel::ColoredLabel {
            color: white(),
            text: "► "@ + ("title"@ + decimal_digits(i as nat)),
        }),
        display_list(numbered_cards(count))[COMMANDS_PER_CARD * i + 3] == (DrawModel::Label {
            text: "desc"@ + decimal_digits(i as nat),
            style: TextStyle::Button,
        }),
        display_list(numbered_cards(count))[COMMANDS_PER_CARD * i + 6] == (DrawModel::Hyperlink {
            label: "read more 🔗"@,
            url: "https://example.com/"@ + decimal_digits(i as nat),
            layout: Layout::RightToLeft,
        }),
{
    lemma_display_list_len(numbered_cards(count));
    lemma_display_list_shows_fields(numbered_cards(count), i);
}

impl NewsCardData {
    /// Appends the commands that draw this card to `out`.
    pub fn render(&self, out: &mut Vec<DrawCommand>)
        ensures
            final(out).deep_view() == old(out).deep_view() + card_commands(self@),
    {
        let title = String::from_str("► ").concat(self.title.as_str());
        out.push(DrawCommand::Space(PADDING));
        out.push(DrawCommand::ColoredLabel { color: Color::white(), text: title });
        out.push(DrawCommand::Space(PADDING));
        out.push(DrawCommand::Label { text: self.desc.clone(), style: TextStyle::Button });
        out.push(DrawCommand::HyperlinkColor(Color::cyan()));
        out.push(DrawCommand::Space(PADDING));
        out.push(
            DrawCommand::Hyperlink {
                label: String::from_str("read more 🔗"),
                url: self.url.clone(),
                layout: Layout::RightToLeft,
            },
        );
        out.push(DrawCommand::Space(PADDING));
        out.push(DrawCommand::Separator);
        assert(out.deep_view() =~= old(out).deep_view() + card_commands(self@));
    }
}

/// Renders the cards in the order of the list.
pub fn render_cards(cards: &Vec<NewsCardData>) -> (commands: Vec<DrawCommand>)
    ensures
        commands.deep_view() == display_list(cards.deep_view()),
{
    let mut commands: Vec<DrawCommand> = Vec::new();
    let mut i: usize = 0;
    while i < cards.len()
        invariant
            i <= cards.len(),
            commands.deep_view() == display_list(cards.deep_view().take(i as int)),
        decreases cards.len() - i,
    {
        cards[i].render(&mut commands);
        proof {
            let shown = cards.deep_view();
            lemma_display_list_push(shown.take(i as int), shown[i as int]);
            assert(shown.take(i as int).push(shown[i as int]) =~= shown.take(i + 1));
        }
        i += 1;
    }
    assert(cards.deep_view().take(i as int) =~= cards.deep_view());
    commands
}

} // verus!
