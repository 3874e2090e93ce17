//! Design tokens: built-in defaults, the theme-file model and its merge,
//! and the resolution order defaults < theme file < command line.
use vstd::prelude::*;

pub mod color;
pub mod tokens;
pub mod file;
pub mod merge;
pub mod fonts;

use color::Color;
use file::ThemeFile;
use merge::{ColorWarning, invalid_colors, merge, merge_spec, or_keep, set_opt, warnings_view};
use tokens::{Metrics, Tokens, dark, dark_spec, defaults_spec, light, light_spec};

verus! {

/// Name of the font family used for headings.
pub const HEADING_FAMILY: &'static str = "mado-heading";

/// The tokens after the theme file (if any).
pub open spec fn with_file_spec<F>(base: Tokens<F>, file: Option<ThemeFile<F>>) -> Tokens<F> {
    match file {
        Some(f) => merge_spec(base, f),
        None => base,
    }
}

/// The tokens after the command-line font options, `family` given by its
/// characters.
pub open spec fn with_cli_spec<F>(t: Tokens<F>, family: Option<String>, size: Option<F>) -> Tokens<F> {
    Tokens {
        font_family: match family {
            Some(s) => Some(s),
            None => t.font_family,
        },
        font_size: or_keep(t.font_size, size),
        ..t
    }
}

pub open spec fn opt_deref<F>(file: Option<&ThemeFile<F>>) -> Option<ThemeFile<F>> {
    match file {
        Some(f) => Some(*f),
        None => None,
    }
}

pub open spec fn opt_view(s: Option<String>) -> Option<Seq<char>> {
    match s {
        Some(s) => Some(s@),
        None => None,
    }
}

pub open spec fn opt_str_view(s: Option<&str>) -> Option<Seq<char>> {
    match s {
        Some(s) => Some(s@),
        None => None,
    }
}

/// Resolve the effective tokens: the built-in defaults for the mode (with
/// the given sizes), overridden by the theme file if there is one, then by
/// the command-line font family and size. Also returns the `[colors]`
/// entries of the file that are not colors.
pub fn resolve<F: Copy>(
    dark_mode: bool,
    metrics: Metrics<F>,
    file: Option<&ThemeFile<F>>,
    font: Option<&str>,
    font_size: Option<F>,
) -> (r: (Tokens<F>, Vec<ColorWarning>))
    requires
        match file {
            Some(f) => f.wf(),
            None => true,
        },
    ensures
        exists|icon: String, family: Option<String>|
            icon@ == Seq::<char>::empty() && opt_view(family) == opt_str_view(font) && r.0
                == #[trigger] with_cli_spec(
                with_file_spec(defaults_spec(dark_mode, metrics, icon), opt_deref(file)),
                family,
                font_size,
            ),
        match file {
            Some(f) => warnings_view(r.1@) == invalid_colors(f.colors@),
            None => r.1@.len() == 0,
        },
{
    let mut tokens = if dark_mode {
        dark(metrics)
    } else {
        light(metrics)
    };
    let ghost icon = tokens.titlebar_icon;
    let ghost base = tokens;
    let warnings = match file {
        Some(f) => merge(&mut tokens, f),
        None => Vec::new(),
    };
    let ghost mid = tokens;
    let ghost mut family: Option<String> = None;
    if let Some(name) = font {
        let owned = name.to_owned();
        proof {
            family = Some(owned);
        }
        tokens.font_family = Some(owned);
    }
    set_opt(&mut tokens.font_size, font_size);
    assert(tokens == with_cli_spec(mid, family, font_size));
    assert(mid == with_file_spec(defaults_spec(dark_mode, metrics, icon), opt_deref(file)));
    (tokens, warnings)
}

/// The command line wins over the theme file, and the theme file over the
/// defaults: a font family or size given on the command line is the one
/// used; otherwise the file's; otherwise the default.
pub proof fn lemma_resolution_order<F>(
    base: Tokens<F>,
    file: Option<ThemeFile<F>>,
    family: Option<String>,
    size: Option<F>,
)
    ensures
        ({
            let r = with_cli_spec(with_file_spec(base, file), family, size);
            &&& family is Some ==> r.font_family == family
            &&& size is Some ==> r.font_size == size->Some_0
            &&& (family is None && file is Some && file->Some_0.font.family is Some) ==> r.font_family
                == file->Some_0.font.family
            &&& (size is None && file is Some && file->Some_0.font.size is Some) ==> r.font_size
                == file->Some_0.font.size->Some_0
            &&& (family is None && (file is None || file->Some_0.font.family is None))
                ==> r.font_family == base.font_family
            &&& (size is None && (file is None || file->Some_0.font.size is None)) ==> r.font_size
                == base.font_size
        }),
{
}

/// Without a theme file and without command-line font options the
/// defaults are used as they are.
pub proof fn lemma_no_overrides_is_defaults<F>(base: Tokens<F>)
    ensures
        with_cli_spec(with_file_spec(base, None), None, None) == base,
{
}

/// The dark defaults differ from the light ones in colors only: sizes,
/// fonts and the title bar layout are the same.
pub proof fn lemma_modes_share_layout<F>(m: Metrics<F>, icon: String)
    ensures
        ({
            let d = dark_spec(m, icon);
            let l = light_spec(m, icon);
            &&& d.window_radius == l.window_radius && d.window_border_width == l.window_border_width
            &&& d.window_padding == l.window_padding && d.titlebar_height == l.titlebar_height
            &&& d.titlebar_separator_width == l.titlebar_separator_width
            &&& d.font_size == l.font_size && d.heading_size == l.heading_size
            &&& d.input_radius == l.input_radius && d.button_radius == l.button_radius
            &&& d.button_padding == l.button_padding
            &&& d.font_family == l.font_family && d.titlebar_show == l.titlebar_show
            &&& d.titlebar_icon == l.titlebar_icon
            &&& d.dark && !l.dark
        }),
{
}


/// Without a theme file and without command-line font options, the dark
/// mode resolves to the dark palette ("zenwritten dark") and the light
/// mode to the light one ("zenwritten light"), with the given sizes.
pub proof fn lemma_defaults_by_mode<F>(dark_mode: bool, m: Metrics<F>, icon: String)
    ensures
        ({
            let r = with_cli_spec(with_file_spec(defaults_spec(dark_mode, m, icon), None), None, None);
            &&& r.dark == dark_mode
            &&& r.window_radius == m.window_radius && r.window_border_width == m.window_border_width
            &&& r.window_padding == m.window_padding && r.titlebar_height == m.titlebar_height
            &&& r.font_size == m.font_size && r.heading_size == m.heading_size
            &&& r.font_family is None && r.titlebar_show
            &&& dark_mode ==> {
                &&& r.window_bg == Color { r: 0x19, g: 0x19, b: 0x19, a: 255 }
                &&& r.foreground == Color { r: 0xBB, g: 0xBB, b: 0xBB, a: 255 }
                &&& r.muted == Color { r: 0x8C, g: 0x8C, b: 0x8C, a: 255 }
                &&& r.accent == Color { r: 0xDE, g: 0x6E, b: 0x7C, a: 255 }
                &&& r.warning == Color { r: 0xB7, g: 0x7E, b: 0x64, a: 255 }
                &&& r.danger == Color { r: 0xDE, g: 0x6E, b: 0x7C, a: 255 }
                &&& r.window_border_color == Color { r: 0xBB, g: 0xBB, b: 0xBB, a: 41 }
                &&& r.titlebar_bg == Color { r: 0x15, g: 0x15, b: 0x15, a: 255 }
                &&& r.titlebar_fg == Color { r: 0xBB, g: 0xBB, b: 0xBB, a: 255 }
                &&& r.titlebar_separator_color == Color { r: 0xBB, g: 0xBB, b: 0xBB, a: 31 }
                &&& r.banner_warning_bg == Color { r: 0xBB, g: 0xBB, b: 0xBB, a: 23 }
                &&& r.banner_warning_fg == Color { r: 0xA6, g: 0xA6, b: 0xA6, a: 255 }
                &&& r.input_bg == Color { r: 0x14, g: 0x14, b: 0x14, a: 255 }
                &&& r.input_border_color == Color { r: 0xBB, g: 0xBB, b: 0xBB, a: 38 }
                &&& r.input_focus_border == Color { r: 0x60, g: 0x99, b: 0xC0, a: 255 }
                &&& r.mono_bg == Color { r: 0x19, g: 0x19, b: 0x19, a: 255 }
                &&& r.mono_fg == Color { r: 0xBB, g: 0xBB, b: 0xBB, a: 255 }
                &&& r.button_primary_bg == Color { r: 0xDE, g: 0x6E, b: 0x7C, a: 255 }
                &&& r.button_primary_fg == Color { r: 0x19, g: 0x19, b: 0x19, a: 255 }
                &&& r.button_secondary_bg == Color { r: 0, g: 0, b: 0, a: 0 }
                &&& r.button_secondary_border == Color { r: 0xBB, g: 0xBB, b: 0xBB, a: 64 }
                &&& r.button_secondary_fg == Color { r: 0xBB, g: 0xBB, b: 0xBB, a: 255 }
            }
            &&& !dark_mode ==> {
                &&& r.window_bg == Color { r: 0xEE, g: 0xEE, b: 0xEE, a: 255 }
                &&& r.foreground == Color { r: 0x35, g: 0x35, b: 0x35, a: 255 }
                &&& r.muted == Color { r: 0x63, g: 0x63, b: 0x63, a: 255 }
                &&& r.accent == Color { r: 0xA8, g: 0x33, b: 0x4C, a: 255 }
                &&& r.warning == Color { r: 0x94, g: 0x49, b: 0x27, a: 255 }
                &&& r.danger == Color { r: 0xA8, g: 0x33, b: 0x4C, a: 255 }
                &&& r.window_border_color == Color { r: 0xB4, g: 0xB4, b: 0xB4, a: 255 }
                &&& r.titlebar_bg == Color { r: 0xE4, g: 0xE4, b: 0xE4, a: 255 }
                &&& r.titlebar_fg == Color { r: 0x35, g: 0x35, b: 0x35, a: 255 }
                &&& r.titlebar_separator_color == Color { r: 0xB4, g: 0xB4, b: 0xB4, a: 255 }
                &&& r.banner_warning_bg == Color { r: 0x35, g: 0x35, b: 0x35, a: 18 }
                &&& r.banner_warning_fg == Color { r: 0x53, g: 0x53, b: 0x53, a: 255 }
                &&& r.input_bg == Color { r: 0xE7, g: 0xE7, b: 0xE7, a: 255 }
                &&& r.input_border_color == Color { r: 0xB4, g: 0xB4, b: 0xB4, a: 255 }
                &&& r.input_focus_border == Color { r: 0x28, g: 0x64, b: 0x86, a: 255 }
                &&& r.mono_bg == Color { r: 0x19, g: 0x19, b: 0x19, a: 255 }
                &&& r.mono_fg == Color { r: 0xB4, g: 0xB4, b: 0xB4, a: 255 }
                &&& r.button_primary_bg == Color { r: 0xA8, g: 0x33, b: 0x4C, a: 255 }
                &&& r.button_primary_fg == Color { r: 0xEE, g: 0xEE, b: 0xEE, a: 255 }
                &&& r.button_secondary_bg == Color { r: 0xEE, g: 0xEE, b: 0xEE, a: 255 }
                &&& r.button_secondary_border == Color { r: 0xB4, g: 0xB4, b: 0xB4, a: 255 }
                &&& r.button_secondary_fg == Color { r: 0x35, g: 0x35, b: 0x35, a: 255 }
            }
        }),
{
}

} // verus!
