use mado::theme::color::Color;
use mado::theme::file::{Background, BorderSpec, ColorText, PaddingSpec, ThemeFile, text_less};
use mado::theme::fonts::{heading_stack, prepend_fonts};
use mado::theme::merge::{Palette, merge, set_opt};
use mado::theme::tokens::{Metrics, Tokens, dark, light};
use mado::theme::resolve;

fn metrics() -> Metrics<f32> {
    Metrics {
        window_radius: 8.0,
        window_border_width: 1.0,
        window_padding: 14.0,
        titlebar_height: 36.0,
        titlebar_separator_width: 1.0,
        font_size: 13.0,
        heading_size: 15.0,
        input_radius: 4.0,
        button_radius: 5.0,
        button_padding: [12.0, 5.0],
    }
}

fn ct(text: &str) -> ColorText {
    ColorText { text: text.to_string(), alpha: None }
}

fn rgb(r: u8, g: u8, b: u8) -> Color {
    Color { r, g, b, a: 255 }
}

fn same(a: &Tokens<f32>, b: &Tokens<f32>) -> bool {
    format!("{:?}", a) == format!("{:?}", b)
}

#[test]
fn light_defaults() {
    let t = light(metrics());
    assert!(!t.dark);
    assert_eq!(t.accent, rgb(0xA8, 0x33, 0x4C));
    assert_eq!(t.window_bg, rgb(0xEE, 0xEE, 0xEE));
    assert_eq!(t.banner_warning_bg, Color { r: 0x35, g: 0x35, b: 0x35, a: 18 });
    assert_eq!(t.titlebar_icon, "");
    assert_eq!(t.font_family, None);
    assert_eq!(t.font_size, 13.0);
    assert_eq!(t.button_padding, [12.0, 5.0]);
}

#[test]
fn dark_defaults_change_colors_only() {
    let d = dark(metrics());
    let l = light(metrics());
    assert!(d.dark);
    assert_eq!(d.accent, rgb(0xDE, 0x6E, 0x7C));
    assert_eq!(d.danger, d.accent);
    assert_eq!(d.window_border_color, Color { r: 0xBB, g: 0xBB, b: 0xBB, a: 41 });
    assert_eq!(d.button_secondary_bg, Color { r: 0, g: 0, b: 0, a: 0 });
    assert_eq!(d.mono_bg, l.mono_bg);
    assert_eq!(d.window_radius, l.window_radius);
    assert_eq!(d.button_padding, l.button_padding);
    assert_eq!(d.titlebar_show, l.titlebar_show);
}

#[test]
fn empty_file_changes_nothing() {
    let mut t = light(metrics());
    let before = t.clone();
    let warnings = merge(&mut t, &ThemeFile::empty());
    assert!(warnings.is_empty());
    assert!(same(&t, &before));
}

#[test]
fn colors_table_overrides_palette_and_reports_invalid_values() {
    let mut file: ThemeFile<f32> = ThemeFile::empty();
    file.colors = vec![
        ("accent".to_string(), ct("#112233")),
        ("bogus".to_string(), ct("not-a-color")),
        ("muted".to_string(), ct("#000")),
        ("unknown".to_string(), ct("#fff")),
    ];
    let mut t = light(metrics());
    let warnings = merge(&mut t, &file);
    assert_eq!(t.accent, rgb(0x11, 0x22, 0x33));
    assert_eq!(t.muted, rgb(0, 0, 0));
    assert_eq!(t.danger, rgb(0xA8, 0x33, 0x4C));
    assert_eq!(warnings.len(), 1);
    assert_eq!(warnings[0].name, "bogus");
    assert_eq!(warnings[0].value, "not-a-color");
}

#[test]
fn values_may_name_palette_colors() {
    let mut file: ThemeFile<f32> = ThemeFile::empty();
    file.colors = vec![("accent".to_string(), ct("#010203"))];
    file.titlebar.color = Some(ct("accent"));
    file.window.background = Some(Background::Gradient(vec![ct("danger"), ct("#ffffff")]));
    file.input.background = Some(Background::Color(ct(" #abc ")));
    file.button.primary.background = Some(Background::Gradient(vec![]));
    let mut t = light(metrics());
    merge(&mut t, &file);
    assert_eq!(t.titlebar_fg, rgb(1, 2, 3));
    assert_eq!(t.window_bg, rgb(0xA8, 0x33, 0x4C));
    assert_eq!(t.input_bg, rgb(0xaa, 0xbb, 0xcc));
    assert_eq!(t.button_primary_bg, rgb(0xA8, 0x33, 0x4C));
}

#[test]
fn invalid_values_keep_the_token() {
    let mut file: ThemeFile<f32> = ThemeFile::empty();
    file.titlebar.color = Some(ct("nope"));
    file.window.border = Some(BorderSpec { color: Some(ct("#zzz")), width: Some(3.0) });
    let mut t = light(metrics());
    merge(&mut t, &file);
    assert_eq!(t.titlebar_fg, rgb(0x35, 0x35, 0x35));
    assert_eq!(t.window_border_color, rgb(0xB4, 0xB4, 0xB4));
    assert_eq!(t.window_border_width, 3.0);
}

#[test]
fn sizes_strings_and_flags_are_overridden() {
    let mut file: ThemeFile<f32> = ThemeFile::empty();
    file.window.radius = Some(2.5);
    file.font.family = Some("Fira Sans".to_string());
    file.font.size = Some(16.0);
    file.titlebar.show = Some(false);
    file.titlebar.icon = Some("✦".to_string());
    file.button.padding = Some(PaddingSpec { x: Some(20.0), y: None });
    file.input.border_focus = Some(BorderSpec { color: Some(ct("rgba(1,2,3,0.5)")), width: None });
    file.input.border_focus.as_mut().unwrap().color.as_mut().unwrap().alpha = Some(128);
    let mut t = light(metrics());
    merge(&mut t, &file);
    assert_eq!(t.window_radius, 2.5);
    assert_eq!(t.font_family.as_deref(), Some("Fira Sans"));
    assert_eq!(t.font_size, 16.0);
    assert!(!t.titlebar_show);
    assert_eq!(t.titlebar_icon, "✦");
    assert_eq!(t.button_padding, [20.0, 5.0]);
    assert_eq!(t.input_focus_border, Color { r: 1, g: 2, b: 3, a: 128 });
}

#[test]
fn merging_twice_is_merging_once() {
    let mut file: ThemeFile<f32> = ThemeFile::empty();
    file.colors = vec![("foreground".to_string(), ct("#123456"))];
    file.titlebar.color = Some(ct("foreground"));
    file.window.padding = Some(3.0);
    let mut once = light(metrics());
    merge(&mut once, &file);
    let mut twice = once.clone();
    merge(&mut twice, &file);
    assert!(same(&once, &twice));
}

#[test]
fn resolution_order_is_defaults_file_command_line() {
    let mut file: ThemeFile<f32> = ThemeFile::empty();
    file.font.family = Some("From File".to_string());
    file.font.size = Some(20.0);
    let (t, _) = resolve(false, metrics(), Some(&file), Some("From Cli"), Some(9.0));
    assert_eq!(t.font_family.as_deref(), Some("From Cli"));
    assert_eq!(t.font_size, 9.0);
    let (t, _) = resolve(true, metrics(), Some(&file), None, None);
    assert_eq!(t.font_family.as_deref(), Some("From File"));
    assert_eq!(t.font_size, 20.0);
    assert!(t.dark);
    let (t, w) = resolve(false, metrics(), None, None, None);
    assert!(same(&t, &light(metrics())));
    assert!(w.is_empty());
}

#[test]
fn set_opt_overwrites_only_with_a_value() {
    let mut x = 1;
    set_opt(&mut x, None);
    assert_eq!(x, 1);
    set_opt(&mut x, Some(7));
    assert_eq!(x, 7);
}

#[test]
fn palette_names() {
    let t = light(metrics());
    let mut p = Palette::of(&t);
    assert_eq!(p.get("warning"), Some(rgb(0x94, 0x49, 0x27)));
    assert_eq!(p.get("Warning"), None);
    p.set("danger", rgb(1, 1, 1));
    assert_eq!(p.danger, rgb(1, 1, 1));
    p.set("other", rgb(2, 2, 2));
    assert_eq!(p.get("danger"), Some(rgb(1, 1, 1)));
}

#[test]
fn font_stacks() {
    let mut stack = vec!["Ubuntu".to_string(), "emoji".to_string()];
    prepend_fonts(&mut stack, Some("Noto Sans CJK SC".to_string()), Some("Noto Sans".to_string()));
    assert_eq!(stack, vec!["Noto Sans", "Noto Sans CJK SC", "Ubuntu", "emoji"]);
    let mut mono = vec!["Hack".to_string()];
    prepend_fonts(&mut mono, None, Some("JetBrains Mono".to_string()));
    assert_eq!(mono, vec!["JetBrains Mono", "Hack"]);
    let heading = heading_stack(Some("Fraunces".to_string()), &stack);
    assert_eq!(heading, vec!["Fraunces", "Noto Sans", "Noto Sans CJK SC", "Ubuntu", "emoji"]);
    assert_eq!(heading_stack(None, &mono), mono);
}

#[test]
fn colors_table_order_is_string_order() {
    let mut file: ThemeFile<f32> = ThemeFile::empty();
    assert!(file.colors_in_order());
    file.colors = vec![
        ("Accent".to_string(), ct("#000")),
        ("accent".to_string(), ct("#000")),
        ("accents".to_string(), ct("#000")),
        ("é".to_string(), ct("#000")),
    ];
    assert!(file.colors_in_order());
    file.colors.swap(1, 2);
    assert!(!file.colors_in_order());
    file.colors = vec![("muted".to_string(), ct("#000")), ("muted".to_string(), ct("#fff"))];
    assert!(!file.colors_in_order());
}

#[test]
fn text_less_is_string_order() {
    let words = ["", "a", "A", "ab", "b", "é", "e\u{301}", "z", "窓", "\u{10000}", "\u{ffff}"];
    for a in words {
        for b in words {
            assert_eq!(text_less(a, b), a < b, "{a:?} {b:?}");
        }
    }
}
