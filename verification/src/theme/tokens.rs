//! The resolved design tokens and their built-in defaults (the
//! zenwritten light and dark palettes).
//!
//! Sizes (radii, widths, paddings, font sizes) are floating-point values
//! that this library only stores and moves; their type is the parameter
//! `F`, which the renderer picks.
use vstd::prelude::*;
use super::color::Color;

verus! {

/// Fully resolved design tokens consumed by the renderer.
#[derive(Debug, Clone)]
pub struct Tokens<F> {
    pub dark: bool,
    pub window_bg: Color,
    pub window_radius: F,
    pub window_border_color: Color,
    pub window_border_width: F,
    pub window_padding: F,
    pub titlebar_show: bool,
    pub titlebar_bg: Color,
    pub titlebar_fg: Color,
    pub titlebar_height: F,
    pub titlebar_icon: String,
    pub titlebar_separator_color: Color,
    pub titlebar_separator_width: F,
    pub foreground: Color,
    pub muted: Color,
    pub accent: Color,
    pub warning: Color,
    pub danger: Color,
    pub font_family: Option<String>,
    pub font_size: F,
    pub heading_size: F,
    pub banner_warning_bg: Color,
    pub banner_warning_fg: Color,
    pub input_bg: Color,
    pub input_border_color: Color,
    pub input_radius: F,
    pub input_focus_border: Color,
    pub mono_bg: Color,
    pub mono_fg: Color,
    pub button_radius: F,
    pub button_padding: [F; 2],
    pub button_primary_bg: Color,
    pub button_primary_fg: Color,
    pub button_secondary_bg: Color,
    pub button_secondary_border: Color,
    pub button_secondary_fg: Color,
}

/// The default sizes, shared by the light and the dark defaults.
#[derive(Debug, Clone, Copy)]
pub struct Metrics<F> {
    pub window_radius: F,
    pub window_border_width: F,
    pub window_padding: F,
    pub titlebar_height: F,
    pub titlebar_separator_width: F,
    pub font_size: F,
    pub heading_size: F,
    pub input_radius: F,
    pub button_radius: F,
    pub button_padding: [F; 2],
}

pub open spec fn rgb(r: u8, g: u8, b: u8) -> Color {
    Color { r, g, b, a: 255 }
}

pub open spec fn rgba(r: u8, g: u8, b: u8, a: u8) -> Color {
    Color { r, g, b, a }
}

/// The light defaults; `icon` is the (empty) title-bar icon.
pub open spec fn light_spec<F>(m: Metrics<F>, icon: String) -> Tokens<F> {
    Tokens {
        dark: false,
        window_bg: rgb(0xEE, 0xEE, 0xEE),
        window_radius: m.window_radius,
        window_border_color: rgb(0xB4, 0xB4, 0xB4),
        window_border_width: m.window_border_width,
        window_padding: m.window_padding,
        titlebar_show: true,
        titlebar_bg: rgb(0xE4, 0xE4, 0xE4),
        titlebar_fg: rgb(0x35, 0x35, 0x35),
        titlebar_height: m.titlebar_height,
        titlebar_icon: icon,
        titlebar_separator_color: rgb(0xB4, 0xB4, 0xB4),
        titlebar_separator_width: m.titlebar_separator_width,
        foreground: rgb(0x35, 0x35, 0x35),
        muted: rgb(0x63, 0x63, 0x63),
        accent: rgb(0xA8, 0x33, 0x4C),
        warning: rgb(0x94, 0x49, 0x27),
        danger: rgb(0xA8, 0x33, 0x4C),
        font_family: None,
        font_size: m.font_size,
        heading_size: m.heading_size,
        banner_warning_bg: rgba(0x35, 0x35, 0x35, 18),
        banner_warning_fg: rgb(0x53, 0x53, 0x53),
        input_bg: rgb(0xE7, 0xE7, 0xE7),
        input_border_color: rgb(0xB4, 0xB4, 0xB4),
        input_radius: m.input_radius,
        input_focus_border: rgb(0x28, 0x64, 0x86),
        mono_bg: rgb(0x19, 0x19, 0x19),
        mono_fg: rgb(0xB4, 0xB4, 0xB4),
        button_radius: m.button_radius,
        button_padding: m.button_padding,
        button_primary_bg: rgb(0xA8, 0x33, 0x4C),
        button_primary_fg: rgb(0xEE, 0xEE, 0xEE),
        button_secondary_bg: rgb(0xEE, 0xEE, 0xEE),
        button_secondary_border: rgb(0xB4, 0xB4, 0xB4),
        button_secondary_fg: rgb(0x35, 0x35, 0x35),
    }
}

/// The dark defaults: the light ones with the dark palette; borders are
/// translucent foreground.
pub open spec fn dark_spec<F>(m: Metrics<F>, icon: String) -> Tokens<F> {
    Tokens {
        dark: true,
        window_bg: rgb(0x19, 0x19, 0x19),
        window_border_color: rgba(0xBB, 0xBB, 0xBB, 41),
        titlebar_bg: rgb(0x15, 0x15, 0x15),
        titlebar_fg: rgb(0xBB, 0xBB, 0xBB),
        titlebar_separator_color: rgba(0xBB, 0xBB, 0xBB, 31),
        foreground: rgb(0xBB, 0xBB, 0xBB),
        muted: rgb(0x8C, 0x8C, 0x8C),
        accent: rgb(0xDE, 0x6E, 0x7C),
        warning: rgb(0xB7, 0x7E, 0x64),
        danger: rgb(0xDE, 0x6E, 0x7C),
        banner_warning_bg: rgba(0xBB, 0xBB, 0xBB, 23),
        banner_warning_fg: rgb(0xA6, 0xA6, 0xA6),
        input_bg: rgb(0x14, 0x14, 0x14),
        input_border_color: rgba(0xBB, 0xBB, 0xBB, 38),
        input_focus_border: rgb(0x60, 0x99, 0xC0),
        mono_fg: rgb(0xBB, 0xBB, 0xBB),
        button_primary_bg: rgb(0xDE, 0x6E, 0x7C),
        button_primary_fg: rgb(0x19, 0x19, 0x19),
        button_secondary_bg: rgba(0, 0, 0, 0),
        button_secondary_border: rgba(0xBB, 0xBB, 0xBB, 64),
        button_secondary_fg: rgb(0xBB, 0xBB, 0xBB),
        ..light_spec(m, icon)
    }
}

/// The defaults for a mode.
pub open spec fn defaults_spec<F>(dark: bool, m: Metrics<F>, icon: String) -> Tokens<F> {
    if dark {
        dark_spec(m, icon)
    } else {
        light_spec(m, icon)
    }
}

/// Built-in light tokens ("zenwritten light"), with the given sizes.
pub fn light<F: Copy>(m: Metrics<F>) -> (t: Tokens<F>)
    ensures
        t == light_spec(m, t.titlebar_icon),
        t.titlebar_icon@ == Seq::<char>::empty(),
{
    let accent = Color::from_rgb(0xA8, 0x33, 0x4C);
    let fg = Color::from_rgb(0x35, 0x35, 0x35);
    let bg = Color::from_rgb(0xEE, 0xEE, 0xEE);
    let bar = Color::from_rgb(0xE4, 0xE4, 0xE4);
    let border = Color::from_rgb(0xB4, 0xB4, 0xB4);
    Tokens {
        dark: false,
        window_bg: bg,
        window_radius: m.window_radius,
        window_border_color: border,
        window_border_width: m.window_border_width,
        window_padding: m.window_padding,
        titlebar_show: true,
        titlebar_bg: bar,
        titlebar_fg: fg,
        titlebar_height: m.titlebar_height,
        titlebar_icon: String::new(),
        titlebar_separator_color: border,
        titlebar_separator_width: m.titlebar_separator_width,
        foreground: fg,
        muted: Color::from_rgb(0x63, 0x63, 0x63),
        accent,
        warning: Color::from_rgb(0x94, 0x49, 0x27),
        danger: accent,
        font_family: None,
        font_size: m.font_size,
        heading_size: m.heading_size,
        banner_warning_bg: Color::from_rgba_unmultiplied(0x35, 0x35, 0x35, 18),
        banner_warning_fg: Color::from_rgb(0x53, 0x53, 0x53),
        input_bg: Color::from_rgb(0xE7, 0xE7, 0xE7),
        input_border_color: border,
        input_radius: m.input_radius,
        input_focus_border: Color::from_rgb(0x28, 0x64, 0x86),
        mono_bg: Color::from_rgb(0x19, 0x19, 0x19),
        mono_fg: Color::from_rgb(0xB4, 0xB4, 0xB4),
        button_radius: m.button_radius,
        button_padding: m.button_padding,
        button_primary_bg: accent,
        button_primary_fg: bg,
        button_secondary_bg: bg,
        button_secondary_border: border,
        button_secondary_fg: fg,
    }
}

/// Built-in dark tokens ("zenwritten dark"), with the given sizes.
pub fn dark<F: Copy>(m: Metrics<F>) -> (t: Tokens<F>)
    ensures
        t == dark_spec(m, t.titlebar_icon),
        t.titlebar_icon@ == Seq::<char>::empty(),
{
    let accent = Color::from_rgb(0xDE, 0x6E, 0x7C);
    let fg = Color::from_rgb(0xBB, 0xBB, 0xBB);
    let bg = Color::from_rgb(0x19, 0x19, 0x19);
    let bar = Color::from_rgb(0x15, 0x15, 0x15);
    let base = light(m);
    Tokens {
        dark: true,
        window_bg: bg,
        window_border_color: Color::from_rgba_unmultiplied(0xBB, 0xBB, 0xBB, 41),
        titlebar_bg: bar,
        titlebar_fg: fg,
        titlebar_separator_color: Color::from_rgba_unmultiplied(0xBB, 0xBB, 0xBB, 31),
        foreground: fg,
        muted: Color::from_rgb(0x8C, 0x8C, 0x8C),
        accent,
        warning: Color::from_rgb(0xB7, 0x7E, 0x64),
        danger: accent,
        banner_warning_bg: Color::from_rgba_unmultiplied(0xBB, 0xBB, 0xBB, 23),
        banner_warning_fg: Color::from_rgb(0xA6, 0xA6, 0xA6),
        input_bg: Color::from_rgb(0x14, 0x14, 0x14),
        input_border_color: Color::from_rgba_unmultiplied(0xBB, 0xBB, 0xBB, 38),
        input_focus_border: Color::from_rgb(0x60, 0x99, 0xC0),
        mono_fg: fg,
        button_primary_bg: accent,
        button_primary_fg: bg,
        button_secondary_bg: Color::transparent(),
        button_secondary_border: Color::from_rgba_unmultiplied(0xBB, 0xBB, 0xBB, 64),
        button_secondary_fg: fg,
        ..base
    }
}

} // verus!
