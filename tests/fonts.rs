use dear_egui::font::{family_of, Family, Font, TextKind, TEXT_KIND_COUNT};
use egui::{FontDefinitions, FontFamily};

const FAKE_TTF: &[u8] = &[0, 1, 0, 0];

fn first_in(defs: &FontDefinitions, family: FontFamily) -> String {
    defs.families[&family][0].clone()
}

#[test]
fn font_names() {
    assert_eq!(Font::OpenSans.name(), "OpenSans");
    assert_eq!(Font::ProggyClean.name(), "ProggyClean");
}

#[test]
fn font_leads_families() {
    assert!(Font::OpenSans.leads(Family::Proportional));
    assert!(!Font::OpenSans.leads(Family::Monospace));
    assert!(Font::ProggyClean.leads(Family::Proportional));
    assert!(Font::ProggyClean.leads(Family::Monospace));
}

#[test]
fn text_family_follows_kind() {
    assert_eq!(family_of(TextKind::Monospace), Family::Monospace);
    assert_eq!(family_of(TextKind::Small), Family::Proportional);
    assert_eq!(family_of(TextKind::Body), Family::Proportional);
    assert_eq!(family_of(TextKind::Button), Family::Proportional);
    assert_eq!(family_of(TextKind::Heading), Family::Proportional);
}

#[test]
fn proggy_clean_text_styles() {
    let styles = Font::ProggyClean.text_styles();
    assert_eq!(styles.len(), TEXT_KIND_COUNT);
    assert_eq!(
        styles,
        vec![
            (TextKind::Small, 16, Family::Proportional),
            (TextKind::Body, 16, Family::Proportional),
            (TextKind::Monospace, 16, Family::Monospace),
            (TextKind::Button, 16, Family::Proportional),
            (TextKind::Heading, 32, Family::Proportional),
        ]
    );
}

#[test]
fn open_sans_text_styles() {
    let styles = Font::OpenSans.text_styles();
    assert_eq!(
        styles,
        vec![
            (TextKind::Small, 10, Family::Proportional),
            (TextKind::Body, 12, Family::Proportional),
            (TextKind::Monospace, 12, Family::Monospace),
            (TextKind::Button, 12, Family::Proportional),
            (TextKind::Heading, 16, Family::Proportional),
        ]
    );
    assert_eq!(Font::OpenSans.text_size(TextKind::Heading), 16);
}

#[test]
fn open_sans_definitions() {
    let defaults = FontDefinitions::default();
    let defs = Font::OpenSans.font_definitions(FAKE_TTF);
    assert!(defs.font_data.contains_key("OpenSans"));
    assert_eq!(defs.font_data["OpenSans"].font.as_ref(), FAKE_TTF);
    assert_eq!(first_in(&defs, FontFamily::Proportional), "OpenSans");
    assert_eq!(
        defs.families[&FontFamily::Proportional].len(),
        defaults.families[&FontFamily::Proportional].len() + 1
    );
    assert_eq!(
        defs.families[&FontFamily::Monospace],
        defaults.families[&FontFamily::Monospace]
    );
}

#[test]
fn proggy_clean_definitions() {
    let defaults = FontDefinitions::default();
    let defs = Font::ProggyClean.font_definitions(FAKE_TTF);
    assert!(defs.font_data.contains_key("ProggyClean"));
    assert_eq!(first_in(&defs, FontFamily::Proportional), "ProggyClean");
    assert_eq!(first_in(&defs, FontFamily::Monospace), "ProggyClean");
    assert_eq!(
        defs.families[&FontFamily::Monospace][1..],
        defaults.families[&FontFamily::Monospace][..]
    );
}

#[test]
fn install_over_empty_definitions() {
    let mut defs = FontDefinitions::empty();
    Font::ProggyClean.install(&mut defs, FAKE_TTF);
    assert_eq!(defs.font_data.len(), 1);
    assert_eq!(defs.families[&FontFamily::Proportional], vec!["ProggyClean".to_owned()]);
    assert_eq!(defs.families[&FontFamily::Monospace], vec!["ProggyClean".to_owned()]);
    Font::OpenSans.install(&mut defs, FAKE_TTF);
    assert_eq!(defs.font_data.len(), 2);
    assert_eq!(
        defs.families[&FontFamily::Proportional],
        vec!["OpenSans".to_owned(), "ProggyClean".to_owned()]
    );
    assert_eq!(defs.families[&FontFamily::Monospace], vec!["ProggyClean".to_owned()]);
}

#[test]
fn definitions_keys_are_defaults_plus_font() {
    for font in [Font::OpenSans, Font::ProggyClean] {
        let defs = font.font_definitions(FAKE_TTF);
        let mut keys: Vec<&str> = defs.font_data.keys().map(|k| k.as_str()).collect();
        keys.sort();
        let mut expected = vec![
            "Hack",
            "Ubuntu-Light",
            "NotoEmoji-Regular",
            "emoji-icon-font",
            font.name(),
        ];
        expected.sort();
        assert_eq!(keys, expected);
        assert_eq!(defs.font_data[font.name()].font.as_ref(), FAKE_TTF);
    }
}

#[test]
fn default_family_lists() {
    let defs = Font::OpenSans.font_definitions(FAKE_TTF);
    assert_eq!(
        defs.families[&FontFamily::Proportional],
        vec!["OpenSans", "Ubuntu-Light", "NotoEmoji-Regular", "emoji-icon-font"]
    );
    assert_eq!(
        defs.families[&FontFamily::Monospace],
        vec!["Hack", "Ubuntu-Light", "NotoEmoji-Regular", "emoji-icon-font"]
    );
}

#[test]
fn definitions_stay_consistent() {
    for font in [Font::OpenSans, Font::ProggyClean] {
        let defs = font.font_definitions(FAKE_TTF);
        for family in [FontFamily::Proportional, FontFamily::Monospace] {
            let list = &defs.families[&family];
            for name in list {
                assert!(defs.font_data.contains_key(name));
                assert_eq!(list.iter().filter(|n| *n == name).count(), 1);
            }
        }
    }
}

#[test]
fn open_sans_install_needs_no_monospace_family() {
    let mut defs = FontDefinitions::empty();
    defs.families.remove(&FontFamily::Monospace);
    Font::OpenSans.install(&mut defs, FAKE_TTF);
    assert_eq!(defs.families[&FontFamily::Proportional], vec!["OpenSans".to_owned()]);
    assert!(!defs.families.contains_key(&FontFamily::Monospace));
}
