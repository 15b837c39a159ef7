use dear_egui::hsv::{hue_sector, sector_channels, sector_color, term_byte, Term};
use Term::{Chroma as C, Intermediate as X, Zero as Z};
use dear_egui::theme::{
    fill_shades, shade_saturation_percent, shade_value_percent, Preset, WidgetState,
    SELECTION_SHADE, SHADE_COUNT,
};

#[test]
fn sector_boundaries() {
    assert_eq!(hue_sector(0), 0);
    assert_eq!(hue_sector(59), 0);
    assert_eq!(hue_sector(60), 1);
    assert_eq!(hue_sector(119), 1);
    assert_eq!(hue_sector(120), 2);
    assert_eq!(hue_sector(212), 3);
    assert_eq!(hue_sector(240), 4);
    assert_eq!(hue_sector(300), 5);
    assert_eq!(hue_sector(359), 5);
}

#[test]
fn channels_of_each_sector() {
    assert_eq!(sector_channels(0), (C, X, Z));
    assert_eq!(sector_channels(1), (X, C, Z));
    assert_eq!(sector_channels(2), (Z, C, X));
    assert_eq!(sector_channels(3), (Z, X, C));
    assert_eq!(sector_channels(4), (X, Z, C));
    assert_eq!(sector_channels(5), (C, Z, X));
}

#[test]
fn neighbouring_sectors_swap_intermediate() {
    for s in 0u8..6 {
        let a = sector_channels(s);
        let b = sector_channels((s + 1) % 6);
        let kept = [a.0 == b.0, a.1 == b.1, a.2 == b.2];
        assert_eq!(kept.iter().filter(|k| **k).count(), 1);
        let moved_x = (a.0 == Term::Intermediate && b.0 != Term::Intermediate)
            || (a.1 == Term::Intermediate && b.1 != Term::Intermediate)
            || (a.2 == Term::Intermediate && b.2 != Term::Intermediate);
        assert!(moved_x);
    }
}

#[test]
fn preset_hues_and_brightness() {
    let table = [
        (Preset::Cadmium, 0, 80),
        (Preset::Acid, 70, 60),
        (Preset::Forest, 160, 70),
        (Preset::Sky, 212, 100),
        (Preset::Iris, 240, 130),
        (Preset::Violet, 290, 75),
        (Preset::Raspberry, 310, 70),
    ];
    for (preset, hue, brightness) in table {
        assert_eq!(preset.hue_degrees(), hue);
        assert_eq!(preset.brightness_percent(), brightness);
    }
}

#[test]
fn shade_table() {
    let sat: Vec<u32> = (0..SHADE_COUNT).map(shade_saturation_percent).collect();
    let val: Vec<u32> = (0..SHADE_COUNT).map(shade_value_percent).collect();
    assert_eq!(sat, vec![60, 67, 71, 94, 73]);
    assert_eq!(val, vec![27, 42, 67, 96, 98]);
    assert_eq!(SELECTION_SHADE, 3);
}

#[test]
fn widget_fill_shades() {
    assert_eq!(fill_shades(WidgetState::Inactive), (0, 1));
    assert_eq!(fill_shades(WidgetState::Hovered), (1, 4));
    assert_eq!(fill_shades(WidgetState::Active), (2, 3));
    assert_eq!(fill_shades(WidgetState::Open), (1, 4));
}

#[test]
fn term_bytes() {
    assert_eq!(term_byte(C, 200, 100, 10), 200);
    assert_eq!(term_byte(X, 200, 100, 10), 100);
    assert_eq!(term_byte(Z, 200, 100, 10), 10);
}

#[test]
fn sector_colors() {
    let expected = [
        [200, 100, 10],
        [100, 200, 10],
        [10, 200, 100],
        [10, 100, 200],
        [100, 10, 200],
        [200, 10, 100],
    ];
    for (sector, [r, g, b]) in expected.into_iter().enumerate() {
        let color = sector_color(sector as u8, 200, 100, 10);
        assert_eq!(color.to_array(), [r, g, b, 255]);
    }
}

#[test]
fn sky_blue_from_bytes() {
    // Hue 212 lies in the fourth sector: blue takes the chroma.
    let color = sector_color(hue_sector(212), 245, 142, 14);
    assert_eq!((color.r(), color.g(), color.b(), color.a()), (14, 142, 245, 255));
}
