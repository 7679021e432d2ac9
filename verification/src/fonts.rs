//! Font plans: which font the reader registers with its host, which fonts a
//! family falls back on, and at what size each text style is set.

use vstd::prelude::*;
use crate::draw::TextStyle;

verus! {

/// A family of fonts, by how its glyphs are spaced.
#[derive(Clone, Copy, Debug, PartialEq, Eq, Structural)]
pub enum FontFamily {
    Monospace,
    Proportional,
}

/// The family and the size, in logical points, that a text style is set in.
#[derive(Clone, Copy, Debug, PartialEq, Eq, Structural)]
pub struct StyleFont {
    pub style: TextStyle,
    pub family: FontFamily,
    pub size: u32,
}

/// What the host is asked to do about fonts: register one font under `name`,
/// use `fonts` as the font names of `family`, first choice first, and set the
/// listed text styles.
#[derive(Debug, PartialEq, Eq)]
pub struct FontPlan {
    pub name: String,
    pub family: FontFamily,
    pub fonts: Vec<String>,
    pub styles: Vec<StyleFont>,
}

/// A [`FontPlan`] with its names as character sequences.
pub struct FontPlanModel {
    pub name: Seq<char>,
    pub family: FontFamily,
    pub fonts: Seq<Seq<char>>,
    pub styles: Seq<StyleFont>,
}

impl View for FontPlan {
    type V = FontPlanModel;

    open spec fn view(&self) -> FontPlanModel {
        FontPlanModel {
            name: self.name@,
            family: self.family,
            fonts: self.fonts.deep_view(),
            styles: self.styles@,
        }
    }
}

/// The font names that egui lists for a family when nothing has been
/// configured, first choice first. These are the fonts that egui bundles.
pub open spec fn toolkit_fonts(family: FontFamily) -> Seq<Seq<char>> {
    match family {
        FontFamily::Monospace => seq![
            "Hack"@,
            "Ubuntu-Light"@,
            "NotoEmoji-Regular"@,
            "emoji-icon-font"@,
        ],
        FontFamily::Proportional => seq![
            "Ubuntu-Light"@,
            "NotoEmoji-Regular"@,
            "emoji-icon-font"@,
        ],
    }
}

/// The entry of `family` in the `fonts_for_family` table of egui's
/// `FontDefinitions::default()`.
///
/// Not verified: the contract repeats the lists that `default()` fills in
/// when egui is built with its bundled fonts, which is how this crate builds
/// it.
#[verifier::external_body]
pub(crate) fn default_fonts(family: FontFamily) -> (fonts: Vec<String>)
    ensures
        fonts.deep_view() == toolkit_fonts(family),
{
    let key = match family {
        FontFamily::Monospace => egui::FontFamily::Monospace,
        FontFamily::Proportional => egui::FontFamily::Proportional,
    };
    egui::FontDefinitions::default().fonts_for_family.remove(&key).unwrap_or_default()
}

} // verus!
