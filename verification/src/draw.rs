//! The vocabulary in which a frame is described: colours, text styles,
//! layouts and the drawing commands built from them.

use vstd::prelude::*;

verus! {

/// An opaque colour, by its red, green and blue channels.
#[derive(Clone, Copy, Debug, PartialEq, Eq, Structural)]
pub struct Color {
    pub r: u8,
    pub g: u8,
    pub b: u8,
}

/// The colour of card titles.
pub open spec fn white() -> Color {
    Color { r: 255, g: 255, b: 255 }
}

/// The colour of hyperlinks.
pub open spec fn cyan() -> Color {
    Color { r: 0, g: 255, b: 255 }
}

impl Color {
    /// The colour of card titles.
    pub fn white() -> (c: Color)
        ensures
            c == white(),
    {
        Color { r: 255, g: 255, b: 255 }
    }

    /// The colour of hyperlinks.
    pub fn cyan() -> (c: Color)
        ensures
            c == cyan(),
    {
        Color { r: 0, g: 255, b: 255 }
    }
}

/// Vertical space, in logical points, put before each element of a card.
pub const PADDING: u32 = 5;

/// The role a piece of text plays, which decides its font and size.
#[derive(Clone, Copy, Debug, PartialEq, Eq, Structural)]
pub enum TextStyle {
    Small,
    Body,
    Button,
    Heading,
    Monospace,
}

/// The direction in which a group of widgets is laid out.
#[derive(Clone, Copy, Debug, PartialEq, Eq, Structural)]
pub enum Layout {
    LeftToRight,
    RightToLeft,
}

/// One step of drawing a frame. A frame is a list of these, carried out in
/// order from the first to the last.
#[derive(Debug, PartialEq, Eq)]
pub enum DrawCommand {
    /// Leave this many logical points of empty space.
    Space(u32),
    /// A line of text in the given colour.
    ColoredLabel { color: Color, text: String },
    /// A line of text in the given style.
    Label { text: String, style: TextStyle },
    /// From here on, hyperlinks are drawn in this colour.
    HyperlinkColor(Color),
    /// A clickable link that shows `label` and opens `url`, placed by `layout`.
    Hyperlink { label: String, url: String, layout: Layout },
    /// A horizontal rule.
    Separator,
}

/// What a [`DrawCommand`] says, with its texts as character sequences.
pub enum DrawModel {
    Space(u32),
    ColoredLabel { color: Color, text: Seq<char> },
    Label { text: Seq<char>, style: TextStyle },
    HyperlinkColor(Color),
    Hyperlink { label: Seq<char>, url: Seq<char>, layout: Layout },
    Separator,
}

impl View for DrawCommand {
    type V = DrawModel;

    open spec fn view(&self) -> DrawModel {
        match *self {
            DrawCommand::Space(amount) => DrawModel::Space(amount),
            DrawCommand::ColoredLabel { color, text } => DrawModel::ColoredLabel {
                color,
                text: text@,
            },
            DrawCommand::Label { text, style } => DrawModel::Label { text: text@, style },
            DrawCommand::HyperlinkColor(color) => DrawModel::HyperlinkColor(color),
            DrawCommand::Hyperlink { label, url, layout } => DrawModel::Hyperlink {
                label: label@,
                url: url@,
                layout,
            },
            DrawCommand::Separator => DrawModel::Separator,
        }
    }
}

impl DeepView for DrawCommand {
    type V = DrawModel;

    open spec fn deep_view(&self) -> DrawModel {
        self@
    }
}

} // verus!
