use egui::FontDefinitions;
use headlines::draw::TextStyle;
use headlines::fonts::{FontFamily, FontPlan, StyleFont};
use headlines::reader::{Headlines, WINDOW_HEIGHT, WINDOW_WIDTH};

#[test]
fn reader_font_plan() {
    let plan = Headlines::new().configure_fonts();
    assert_eq!(
        plan,
        FontPlan {
            name: "MesloLGS".to_string(),
            family: FontFamily::Proportional,
            fonts: vec![
                "MesloLGS".to_string(),
                "Ubuntu-Light".to_string(),
                "NotoEmoji-Regular".to_string(),
                "emoji-icon-font".to_string(),
            ],
            styles: vec![
                StyleFont {
                    style: TextStyle::Heading,
                    family: FontFamily::Proportional,
                    size: 35,
                },
                StyleFont { style: TextStyle::Body, family: FontFamily::Proportional, size: 20 },
            ],
        }
    );
}

#[test]
fn reader_font_is_first_choice() {
    let plan = Headlines::new().configure_fonts();
    assert_eq!(plan.fonts[0], plan.name);
    assert_eq!(plan.fonts[0], "MesloLGS");
}

#[test]
fn toolkit_fonts_stay_as_fallbacks_in_their_order() {
    let plan = Headlines::new().configure_fonts();
    let defaults = FontDefinitions::default();
    let listed = &defaults.fonts_for_family[&egui::FontFamily::Proportional];
    assert_eq!(listed.len(), 3);
    assert_eq!(plan.fonts.len(), listed.len() + 1);
    assert_eq!(&plan.fonts[1..], &listed[..]);
}

#[test]
fn fallbacks_are_fonts_that_the_toolkit_knows() {
    let plan = Headlines::new().configure_fonts();
    let defaults = FontDefinitions::default();
    for name in &plan.fonts[1..] {
        assert!(defaults.font_data.contains_key(name));
    }
    assert!(!defaults.font_data.contains_key(&plan.name));
}

#[test]
fn setup_asks_for_the_reader_fonts() {
    let mut reader = Headlines::new();
    let plan = reader.setup();
    assert_eq!(plan, reader.configure_fonts());
}

#[test]
fn window_opens_at_its_fixed_size() {
    assert_eq!(WINDOW_WIDTH, 540);
    assert_eq!(WINDOW_HEIGHT, 960);
}
