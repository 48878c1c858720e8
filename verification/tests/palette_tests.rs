use sdof_dynamics::color::Rgba8;
use sdof_dynamics::drawing::{split_handle_look, xz_grid_line, TabDef};
use sdof_dynamics::response::ResponseCase;
use sdof_dynamics::theme::{axis_x_color, axis_y_color, axis_z_color, zeta_color, Theme};

fn rgb(r: u8, g: u8, b: u8) -> Rgba8 {
    Rgba8 { r, g, b, a: 255 }
}

#[test]
fn color_constructors() {
    assert_eq!(Rgba8::opaque(1, 2, 3), Rgba8 { r: 1, g: 2, b: 3, a: 255 });
    assert_eq!(Rgba8::premultiplied(1, 2, 3, 4), Rgba8 { r: 1, g: 2, b: 3, a: 4 });
    assert_eq!(Rgba8::gray(7), Rgba8 { r: 7, g: 7, b: 7, a: 255 });
    assert_eq!(Rgba8::white(), rgb(255, 255, 255));
}

#[test]
fn default_theme_is_light() {
    assert!(!Theme::default().dark_mode);
}

#[test]
fn light_theme_colors() {
    let t = Theme { dark_mode: false };
    assert_eq!(t.bg_color(), rgb(240, 240, 245));
    assert_eq!(t.text_color(), rgb(40, 40, 50));
    assert_eq!(t.grid_color(), Rgba8 { r: 150, g: 150, b: 170, a: 100 });
    assert_eq!(t.accent_color(), rgb(50, 150, 230));
    assert_eq!(t.header_bg(), rgb(255, 255, 255));
    assert_eq!(t.composite_color(), rgb(20, 20, 20));
}

#[test]
fn dark_theme_colors() {
    let t = Theme { dark_mode: true };
    assert_eq!(t.bg_color(), rgb(20, 20, 30));
    assert_eq!(t.text_color(), rgb(200, 200, 210));
    assert_eq!(t.grid_color(), Rgba8 { r: 60, g: 60, b: 80, a: 100 });
    assert_eq!(t.accent_color(), rgb(50, 150, 230));
    assert_eq!(t.header_bg(), rgb(22, 25, 38));
    assert_eq!(t.composite_color(), rgb(255, 255, 255));
}

#[test]
fn series_palette_in_order() {
    let t = Theme::default();
    assert_eq!(t.series_color(0), rgb(230, 60, 70));
    assert_eq!(t.series_color(1), rgb(140, 60, 220));
    assert_eq!(t.series_color(2), rgb(50, 150, 230));
    assert_eq!(t.series_color(3), rgb(230, 130, 200));
    assert_eq!(t.series_color(4), rgb(80, 200, 120));
    assert_eq!(t.series_color(5), rgb(255, 180, 50));
}

#[test]
fn series_palette_repeats_every_six() {
    let t = Theme { dark_mode: true };
    for i in 0..30usize {
        assert_eq!(t.series_color(i), t.series_color(i + 6));
    }
    assert_eq!(t.series_color(usize::MAX), t.series_color(usize::MAX % 6));
}

#[test]
fn series_colors_distinct() {
    let t = Theme::default();
    for i in 0..6usize {
        for j in 0..6usize {
            if i != j {
                assert_ne!(t.series_color(i), t.series_color(j));
            }
        }
    }
}

#[test]
fn zeta_reference_colors() {
    assert_eq!(zeta_color(0), rgb(60, 140, 220));
    assert_eq!(zeta_color(1), rgb(60, 190, 80));
    assert_eq!(zeta_color(2), rgb(210, 170, 30));
    assert_eq!(zeta_color(3), rgb(210, 100, 30));
    assert_eq!(zeta_color(4), rgb(160, 60, 190));
    assert_eq!(zeta_color(99), rgb(160, 60, 190));
}

#[test]
fn gizmo_axis_colors() {
    assert_eq!(axis_x_color(), rgb(0xFF, 0x33, 0x53));
    assert_eq!(axis_y_color(), rgb(0x33, 0xFF, 0x57));
    assert_eq!(axis_z_color(), rgb(0x33, 0x85, 0xFF));
}

#[test]
fn response_case_labels_and_colors() {
    let cases = [
        (ResponseCase::UndampedFree, "Undamped Free", rgb(80, 200, 80)),
        (ResponseCase::UnderdampedFree, "Underdamped Free", rgb(80, 150, 220)),
        (ResponseCase::CriticallyDamped, "Critically Damped", rgb(210, 170, 40)),
        (ResponseCase::OverdampedFree, "Overdamped Free", rgb(210, 110, 40)),
        (ResponseCase::Resonance, "Resonance", rgb(230, 40, 40)),
        (ResponseCase::ForcedVibration, "Forced Vibration", rgb(200, 70, 40)),
    ];
    for (case, label, color) in cases.iter() {
        assert_eq!(case.label(), *label);
        assert_eq!(case.color(), *color);
    }
    for (a, _, ca) in cases.iter() {
        for (b, _, cb) in cases.iter() {
            if a != b {
                assert_ne!(a.label(), b.label());
                assert_ne!(ca, cb);
            }
        }
    }
}

#[test]
fn xz_grid_bold_every_tenth_line() {
    for i in [-20, -10, 0, 10, 30] {
        let l = xz_grid_line(i);
        assert!(l.bold);
        assert_eq!(l.color, rgb(0x66, 0x66, 0x66));
    }
    for i in [-15, -1, 1, 5, 11] {
        let l = xz_grid_line(i);
        assert!(!l.bold);
        assert_eq!(l.color, rgb(0x44, 0x44, 0x44));
    }
}

#[test]
fn split_handle_highlight() {
    assert_eq!(split_handle_look(false, false).gray, 100);
    assert!(!split_handle_look(false, false).resize_cursor);
    assert_eq!(split_handle_look(true, false).gray, 180);
    assert!(split_handle_look(false, true).resize_cursor);
    assert_eq!(split_handle_look(true, true).gray, 180);
}

#[test]
fn tab_label_kept() {
    assert_eq!(TabDef::new("Parameters").label, "Parameters");
}
