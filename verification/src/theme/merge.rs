//! Merging a theme file into tokens.
//!
//! The semantic palette (`foreground`, `muted`, `accent`, `warning`,
//! `danger`) starts from the tokens and is overridden by the `[colors]`
//! table. Every other color value is first looked up as a palette name and
//! otherwise parsed as a color; values that name no color leave the token
//! as it was. `[colors]` entries that are not colors are reported back.
use vstd::prelude::*;
use super::color::{Color, parse_color, parse_color_spec};
use super::file::{
    Background, BorderSpec, ColorText, PaddingSpec, ThemeFile, first_color_spec, is_empty_file,
};
use super::tokens::Tokens;
use crate::text::clone_opt_string;

verus! {

/// The semantic palette.
#[derive(Debug, Clone, Copy, PartialEq, Eq, Structural)]
pub struct Palette {
    pub foreground: Color,
    pub muted: Color,
    pub accent: Color,
    pub warning: Color,
    pub danger: Color,
}

pub open spec fn palette_of<F>(t: Tokens<F>) -> Palette {
    Palette {
        foreground: t.foreground,
        muted: t.muted,
        accent: t.accent,
        warning: t.warning,
        danger: t.danger,
    }
}

/// The palette color of a name, if it is one of the five palette names.
pub open spec fn palette_get(p: Palette, name: Seq<char>) -> Option<Color> {
    if name == "foreground"@ {
        Some(p.foreground)
    } else if name == "muted"@ {
        Some(p.muted)
    } else if name == "accent"@ {
        Some(p.accent)
    } else if name == "warning"@ {
        Some(p.warning)
    } else if name == "danger"@ {
        Some(p.danger)
    } else {
        None
    }
}

/// The palette with the slot of a name (if it is a palette name) set.
pub open spec fn palette_set(p: Palette, name: Seq<char>, c: Color) -> Palette {
    if name == "foreground"@ {
        Palette { foreground: c, ..p }
    } else if name == "muted"@ {
        Palette { muted: c, ..p }
    } else if name == "accent"@ {
        Palette { accent: c, ..p }
    } else if name == "warning"@ {
        Palette { warning: c, ..p }
    } else if name == "danger"@ {
        Palette { danger: c, ..p }
    } else {
        p
    }
}

/// The color that a `[colors]` entry sets, if its value is a color.
pub open spec fn entry_color(e: (String, ColorText)) -> Option<Color> {
    parse_color_spec(e.1.text@, e.1.alpha)
}

/// The palette after the `[colors]` entries, in order.
pub open spec fn apply_colors(p: Palette, entries: Seq<(String, ColorText)>) -> Palette
    decreases entries.len(),
{
    if entries.len() == 0 {
        p
    } else {
        let q = apply_colors(p, entries.drop_last());
        match entry_color(entries.last()) {
            Some(c) => palette_set(q, entries.last().0@, c),
            None => q,
        }
    }
}

/// A `[colors]` entry whose value is not a color.
#[derive(Debug)]
pub struct ColorWarning {
    pub name: String,
    pub value: String,
}

/// Name and value of each `[colors]` entry that is not a color, in order.
pub open spec fn invalid_colors(entries: Seq<(String, ColorText)>) -> Seq<(Seq<char>, Seq<char>)>
    decreases entries.len(),
{
    if entries.len() == 0 {
        seq![]
    } else {
        let w = invalid_colors(entries.drop_last());
        match entry_color(entries.last()) {
            Some(_) => w,
            None => w.push((entries.last().0@, entries.last().1.text@)),
        }
    }
}

pub open spec fn warnings_view(ws: Seq<ColorWarning>) -> Seq<(Seq<char>, Seq<char>)> {
    ws.map_values(|w: ColorWarning| (w.name@, w.value@))
}

pub open spec fn or_keep<T>(old: T, value: Option<T>) -> T {
    match value {
        Some(v) => v,
        None => old,
    }
}

/// A color value: a palette name, or else a color text.
pub open spec fn resolve_spec(p: Palette, v: ColorText) -> Option<Color> {
    match palette_get(p, v.text@) {
        Some(c) => Some(c),
        None => parse_color_spec(v.text@, v.alpha),
    }
}

pub open spec fn resolve_opt_spec(p: Palette, v: Option<ColorText>) -> Option<Color> {
    match v {
        Some(v) => resolve_spec(p, v),
        None => None,
    }
}

/// A background stands for the color of its first stop.
pub open spec fn resolve_bg_spec(p: Palette, bg: Option<Background>) -> Option<Color> {
    match bg {
        Some(b) => resolve_opt_spec(p, first_color_spec(b)),
        None => None,
    }
}

pub open spec fn border_color<F>(p: Palette, old: Color, b: Option<BorderSpec<F>>) -> Color {
    match b {
        Some(b) => or_keep(old, resolve_opt_spec(p, b.color)),
        None => old,
    }
}

pub open spec fn border_width<F>(old: F, b: Option<BorderSpec<F>>) -> F {
    match b {
        Some(b) => or_keep(old, b.width),
        None => old,
    }
}

pub open spec fn padding_spec<F>(old: [F; 2], pad: Option<PaddingSpec<F>>) -> [F; 2] {
    match pad {
        Some(pad) => [or_keep(old[0], pad.x), or_keep(old[1], pad.y)],
        None => old,
    }
}

/// The tokens after merging a theme file.
pub open spec fn merge_spec<F>(t: Tokens<F>, f: ThemeFile<F>) -> Tokens<F> {
    let p = apply_colors(palette_of(t), f.colors@);
    let w = f.window;
    let tb = f.titlebar;
    let input = f.input;
    let button = f.button;
    Tokens {
        foreground: p.foreground,
        muted: p.muted,
        accent: p.accent,
        warning: p.warning,
        danger: p.danger,
        window_bg: or_keep(t.window_bg, resolve_bg_spec(p, w.background)),
        window_radius: or_keep(t.window_radius, w.radius),
        window_padding: or_keep(t.window_padding, w.padding),
        window_border_color: border_color(p, t.window_border_color, w.border),
        window_border_width: border_width(t.window_border_width, w.border),
        font_family: match f.font.family {
            Some(s) => Some(s),
            None => t.font_family,
        },
        font_size: or_keep(t.font_size, f.font.size),
        titlebar_show: or_keep(t.titlebar_show, tb.show),
        titlebar_height: or_keep(t.titlebar_height, tb.height),
        titlebar_icon: or_keep(t.titlebar_icon, tb.icon),
        titlebar_bg: or_keep(t.titlebar_bg, resolve_bg_spec(p, tb.background)),
        titlebar_fg: or_keep(t.titlebar_fg, resolve_opt_spec(p, tb.color)),
        titlebar_separator_color: border_color(p, t.titlebar_separator_color, tb.separator),
        titlebar_separator_width: border_width(t.titlebar_separator_width, tb.separator),
        heading_size: or_keep(t.heading_size, f.heading.size),
        banner_warning_bg: or_keep(
            t.banner_warning_bg,
            resolve_bg_spec(p, f.banner.warning.background),
        ),
        banner_warning_fg: or_keep(t.banner_warning_fg, resolve_opt_spec(p, f.banner.warning.color)),
        input_radius: or_keep(t.input_radius, input.radius),
        input_bg: or_keep(t.input_bg, resolve_bg_spec(p, input.background)),
        input_border_color: border_color(p, t.input_border_color, input.border),
        input_focus_border: border_color(p, t.input_focus_border, input.border_focus),
        button_radius: or_keep(t.button_radius, button.radius),
        button_padding: padding_spec(t.button_padding, button.padding),
        button_primary_bg: or_keep(t.button_primary_bg, resolve_bg_spec(p, button.primary.background)),
        button_primary_fg: or_keep(t.button_primary_fg, resolve_opt_spec(p, button.primary.color)),
        button_secondary_bg: or_keep(
            t.button_secondary_bg,
            resolve_bg_spec(p, button.secondary.background),
        ),
        button_secondary_fg: or_keep(
            t.button_secondary_fg,
            resolve_opt_spec(p, button.secondary.color),
        ),
        button_secondary_border: border_color(
            p,
            t.button_secondary_border,
            button.secondary.border,
        ),
        ..t
    }
}

/// Whether two strings hold the same characters.
pub fn text_eq(a: &str, b: &str) -> (r: bool)
    ensures
        r == (a@ == b@),
{
    let n = a.unicode_len();
    if n != b.unicode_len() {
        return false;
    }
    let mut i: usize = 0;
    while i < n
        invariant
            n == a@.len(),
            n == b@.len(),
            0 <= i <= n,
            forall|j: int| 0 <= j < i ==> a@[j] == b@[j],
        decreases n - i,
    {
        if a.get_char(i) != b.get_char(i) {
            return false;
        }
        i = i + 1;
    }
    assert(a@ =~= b@);
    true
}

impl Palette {
    /// The palette of the tokens.
    pub fn of<F>(t: &Tokens<F>) -> (p: Palette)
        ensures
            p == palette_of(*t),
    {
        Palette {
            foreground: t.foreground,
            muted: t.muted,
            accent: t.accent,
            warning: t.warning,
            danger: t.danger,
        }
    }

    /// The color of a palette name.
    pub fn get(&self, name: &str) -> (c: Option<Color>)
        ensures
            c == palette_get(*self, name@),
    {
        if text_eq(name, "foreground") {
            Some(self.foreground)
        } else if text_eq(name, "muted") {
            Some(self.muted)
        } else if text_eq(name, "accent") {
            Some(self.accent)
        } else if text_eq(name, "warning") {
            Some(self.warning)
        } else if text_eq(name, "danger") {
            Some(self.danger)
        } else {
            None
        }
    }

    /// Set the slot of a palette name; other names change nothing.
    pub fn set(&mut self, name: &str, c: Color)
        ensures
            *final(self) == palette_set(*old(self), name@, c),
    {
        if text_eq(name, "foreground") {
            self.foreground = c;
        } else if text_eq(name, "muted") {
            self.muted = c;
        } else if text_eq(name, "accent") {
            self.accent = c;
        } else if text_eq(name, "warning") {
            self.warning = c;
        } else if text_eq(name, "danger") {
            self.danger = c;
        }
    }
}

/// Overwrite `slot` with `value` when there is one.
pub fn set_opt<T>(slot: &mut T, value: Option<T>)
    ensures
        *final(slot) == or_keep(*old(slot), value),
{
    if let Some(value) = value {
        *slot = value;
    }
}

fn resolve(p: &Palette, v: &ColorText) -> (c: Option<Color>)
    ensures
        c == resolve_spec(*p, *v),
{
    match p.get(v.text.as_str()) {
        Some(c) => Some(c),
        None => parse_color(v.text.as_str(), v.alpha),
    }
}

fn resolve_opt(p: &Palette, v: &Option<ColorText>) -> (c: Option<Color>)
    ensures
        c == resolve_opt_spec(*p, *v),
{
    match v {
        Some(v) => resolve(p, v),
        None => None,
    }
}

fn resolve_bg(p: &Palette, bg: &Option<Background>) -> (c: Option<Color>)
    ensures
        c == resolve_bg_spec(*p, *bg),
{
    match bg {
        Some(b) => match b.first_color() {
            Some(v) => resolve(p, v),
            None => None,
        },
        None => None,
    }
}

fn set_border_color<F>(p: &Palette, slot: &mut Color, b: &Option<BorderSpec<F>>)
    ensures
        *final(slot) == border_color(*p, *old(slot), *b),
{
    if let Some(b) = b {
        set_opt(slot, resolve_opt(p, &b.color));
    }
}

fn set_border_width<F: Copy>(slot: &mut F, b: &Option<BorderSpec<F>>)
    ensures
        *final(slot) == border_width(*old(slot), *b),
{
    if let Some(b) = b {
        set_opt(slot, b.width);
    }
}

/// Apply the `[colors]` table to a palette; report the entries that are
/// not colors.
pub fn apply_color_entries(p: &mut Palette, entries: &Vec<(String, ColorText)>) -> (warnings: Vec<
    ColorWarning,
>)
    ensures
        *final(p) == apply_colors(*old(p), entries@),
        warnings_view(warnings@) == invalid_colors(entries@),
{
    let mut warnings: Vec<ColorWarning> = Vec::new();
    let n = entries.len();
    let mut i: usize = 0;
    let ghost p0 = *p;
    assert(entries@.take(0) =~= Seq::<(String, ColorText)>::empty());
    while i < n
        invariant
            n == entries@.len(),
            0 <= i <= n,
            *p == apply_colors(p0, entries@.take(i as int)),
            warnings_view(warnings@) =~= invalid_colors(entries@.take(i as int)),
        decreases n - i,
    {
        let entry = &entries[i];
        let ghost prev = warnings@;
        assert(entries@.take(i + 1).drop_last() =~= entries@.take(i as int));
        assert(entries@.take(i + 1).last() == entries@[i as int]);
        match parse_color(entry.1.text.as_str(), entry.1.alpha) {
            Some(c) => {
                p.set(entry.0.as_str(), c);
            },
            None => {
                warnings.push(
                    ColorWarning { name: entry.0.clone(), value: entry.1.text.clone() },
                );
                assert(warnings_view(warnings@) =~= warnings_view(prev).push(
                    (entry.0@, entry.1.text@),
                ));
            },
        }
        i = i + 1;
    }
    assert(entries@.take(n as int) =~= entries@);
    warnings
}

/// Merge a theme file into the tokens: the `[colors]` table overrides the
/// palette, then every key that the file sets overrides its token. Returns
/// the `[colors]` entries whose value is not a color.
pub fn merge<F: Copy>(tokens: &mut Tokens<F>, file: &ThemeFile<F>) -> (warnings: Vec<
    ColorWarning,
>)
    requires
        file.wf(),
    ensures
        *final(tokens) == merge_spec(*old(tokens), *file),
        warnings_view(warnings@) == invalid_colors(file.colors@),
{
    let ghost t0 = *tokens;
    let mut palette = Palette::of(tokens);
    let warnings = apply_color_entries(&mut palette, &file.colors);
    tokens.foreground = palette.foreground;
    tokens.muted = palette.muted;
    tokens.accent = palette.accent;
    tokens.warning = palette.warning;
    tokens.danger = palette.danger;
    let p = &palette;

    let w = &file.window;
    set_opt(&mut tokens.window_bg, resolve_bg(p, &w.background));
    set_opt(&mut tokens.window_radius, w.radius);
    set_opt(&mut tokens.window_padding, w.padding);
    set_border_color(p, &mut tokens.window_border_color, &w.border);
    set_border_width(&mut tokens.window_border_width, &w.border);

    if let Some(family) = &file.font.family {
        tokens.font_family = Some(family.clone());
    }
    set_opt(&mut tokens.font_size, file.font.size);

    let t = &file.titlebar;
    set_opt(&mut tokens.titlebar_show, t.show);
    set_opt(&mut tokens.titlebar_height, t.height);
    set_opt(&mut tokens.titlebar_icon, clone_opt_string(&t.icon));
    set_opt(&mut tokens.titlebar_bg, resolve_bg(p, &t.background));
    set_opt(&mut tokens.titlebar_fg, resolve_opt(p, &t.color));
    set_border_color(p, &mut tokens.titlebar_separator_color, &t.separator);
    set_border_width(&mut tokens.titlebar_separator_width, &t.separator);

    set_opt(&mut tokens.heading_size, file.heading.size);

    let banner = &file.banner.warning;
    set_opt(&mut tokens.banner_warning_bg, resolve_bg(p, &banner.background));
    set_opt(&mut tokens.banner_warning_fg, resolve_opt(p, &banner.color));

    let input = &file.input;
    set_opt(&mut tokens.input_radius, input.radius);
    set_opt(&mut tokens.input_bg, resolve_bg(p, &input.background));
    set_border_color(p, &mut tokens.input_border_color, &input.border);
    set_border_color(p, &mut tokens.input_focus_border, &input.border_focus);

    let button = &file.button;
    set_opt(&mut tokens.button_radius, button.radius);
    if let Some(padding) = &button.padding {
        if let Some(x) = padding.x {
            tokens.button_padding = [x, tokens.button_padding[1]];
        }
        if let Some(y) = padding.y {
            tokens.button_padding = [tokens.button_padding[0], y];
        }
    }
    set_opt(&mut tokens.button_primary_bg, resolve_bg(p, &button.primary.background));
    set_opt(&mut tokens.button_primary_fg, resolve_opt(p, &button.primary.color));
    set_opt(&mut tokens.button_secondary_bg, resolve_bg(p, &button.secondary.background));
    set_opt(&mut tokens.button_secondary_fg, resolve_opt(p, &button.secondary.color));
    set_border_color(p, &mut tokens.button_secondary_border, &button.secondary.border);
    let ghost m = merge_spec(t0, *file);
    assert(tokens.button_padding == m.button_padding);
    warnings
}

} // verus!

verus! {

/// The slot (0 to 4) that a palette name sets; 5 for other names.
pub open spec fn slot_index(name: Seq<char>) -> int {
    if name == "foreground"@ {
        0
    } else if name == "muted"@ {
        1
    } else if name == "accent"@ {
        2
    } else if name == "warning"@ {
        3
    } else if name == "danger"@ {
        4
    } else {
        5
    }
}

pub open spec fn get_slot(p: Palette, k: int) -> Color {
    if k == 0 {
        p.foreground
    } else if k == 1 {
        p.muted
    } else if k == 2 {
        p.accent
    } else if k == 3 {
        p.warning
    } else {
        p.danger
    }
}

/// Some entry validly sets slot `k`.
pub open spec fn sets_slot(entries: Seq<(String, ColorText)>, k: int) -> bool
    decreases entries.len(),
{
    if entries.len() == 0 {
        false
    } else {
        (entry_color(entries.last()) is Some && slot_index(entries.last().0@) == k) || sets_slot(
            entries.drop_last(),
            k,
        )
    }
}

/// The color of the last entry that validly sets slot `k`.
pub open spec fn last_set(entries: Seq<(String, ColorText)>, k: int) -> Color
    decreases entries.len(),
{
    if entries.len() == 0 {
        Color { r: 0, g: 0, b: 0, a: 0 }
    } else if entry_color(entries.last()) is Some && slot_index(entries.last().0@) == k {
        entry_color(entries.last())->Some_0
    } else {
        last_set(entries.drop_last(), k)
    }
}

proof fn lemma_apply_colors_slot(p: Palette, entries: Seq<(String, ColorText)>, k: int)
    requires
        0 <= k < 5,
    ensures
        get_slot(apply_colors(p, entries), k) == if sets_slot(entries, k) {
            last_set(entries, k)
        } else {
            get_slot(p, k)
        },
    decreases entries.len(),
{
    if entries.len() > 0 {
        lemma_apply_colors_slot(p, entries.drop_last(), k);
    }
}

proof fn lemma_palette_ext(p: Palette, q: Palette)
    requires
        forall|k: int| 0 <= k < 5 ==> get_slot(p, k) == get_slot(q, k),
    ensures
        p == q,
{
    assert(get_slot(p, 0) == get_slot(q, 0));
    assert(get_slot(p, 1) == get_slot(q, 1));
    assert(get_slot(p, 2) == get_slot(q, 2));
    assert(get_slot(p, 3) == get_slot(q, 3));
    assert(get_slot(p, 4) == get_slot(q, 4));
}

/// Applying the same `[colors]` table twice is applying it once.
pub proof fn lemma_apply_colors_idempotent(p: Palette, entries: Seq<(String, ColorText)>)
    ensures
        apply_colors(apply_colors(p, entries), entries) == apply_colors(p, entries),
{
    let q = apply_colors(p, entries);
    assert forall|k: int| 0 <= k < 5 implies get_slot(apply_colors(q, entries), k) == get_slot(
        q,
        k,
    ) by {
        lemma_apply_colors_slot(p, entries, k);
        lemma_apply_colors_slot(q, entries, k);
    }
    lemma_palette_ext(apply_colors(q, entries), q);
}

/// A theme file that sets nothing leaves the tokens as they are.
pub proof fn lemma_merge_empty_file<F>(t: Tokens<F>, f: ThemeFile<F>)
    requires
        is_empty_file(f),
    ensures
        merge_spec(t, f) == t,
{
    assert(f.colors@ =~= Seq::<(String, ColorText)>::empty());
    assert(padding_spec(t.button_padding, f.button.padding) == t.button_padding);
}

/// Merging the same theme file twice gives what merging it once gives.
pub proof fn lemma_merge_idempotent<F>(t: Tokens<F>, f: ThemeFile<F>)
    ensures
        merge_spec(merge_spec(t, f), f) == merge_spec(t, f),
{
    let t1 = merge_spec(t, f);
    lemma_apply_colors_idempotent(palette_of(t), f.colors@);
    assert(palette_of(t1) == apply_colors(palette_of(t), f.colors@));
    let m = merge_spec(t1, f);
    assert(m.button_padding =~= t1.button_padding);
}

} // verus!

verus! {

/// `new` is what a key with `value` makes of a token that was `old`: the
/// value when the key is set, else the old token.
pub open spec fn key_sets<T>(old: T, value: Option<T>, new: T) -> bool {
    match value {
        Some(v) => new == v,
        None => new == old,
    }
}

/// `new` is what a color key with `value` makes of a token that was `old`,
/// given the palette `p`: a palette name gives that palette color, else a
/// color text gives its color, else (no key, or a value that names no
/// color) the token stays.
pub open spec fn color_key_sets(p: Palette, old: Color, value: Option<ColorText>, new: Color) -> bool {
    match value {
        None => new == old,
        Some(v) => if palette_get(p, v.text@) is Some {
            Some(new) == palette_get(p, v.text@)
        } else if parse_color_spec(v.text@, v.alpha) is Some {
            Some(new) == parse_color_spec(v.text@, v.alpha)
        } else {
            new == old
        },
    }
}

/// The color value of a border key.
pub open spec fn border_value<F>(b: Option<BorderSpec<F>>) -> Option<ColorText> {
    match b {
        Some(b) => b.color,
        None => None,
    }
}

/// The width value of a border key.
pub open spec fn border_width_value<F>(b: Option<BorderSpec<F>>) -> Option<F> {
    match b {
        Some(b) => b.width,
        None => None,
    }
}

/// The color value of a background key: its first stop.
pub open spec fn background_value(bg: Option<Background>) -> Option<ColorText> {
    match bg {
        Some(b) => first_color_spec(b),
        None => None,
    }
}

/// Every color key of a theme file sets the token it belongs to: the
/// palette is the one after the `[colors]` table, and each key that names
/// a palette color or a color text sets its token to that color; a key
/// that is absent or names no color leaves the token as it was.
pub proof fn lemma_merge_sets_color_keys<F>(t: Tokens<F>, f: ThemeFile<F>)
    ensures
        ({
            let p = apply_colors(palette_of(t), f.colors@);
            let r = merge_spec(t, f);
            &&& palette_of(r) == p
            &&& color_key_sets(p, t.window_bg, background_value(f.window.background), r.window_bg)
            &&& color_key_sets(
                p,
                t.window_border_color,
                border_value(f.window.border),
                r.window_border_color,
            )
            &&& color_key_sets(p, t.titlebar_bg, background_value(f.titlebar.background), r.titlebar_bg)
            &&& color_key_sets(p, t.titlebar_fg, f.titlebar.color, r.titlebar_fg)
            &&& color_key_sets(
                p,
                t.titlebar_separator_color,
                border_value(f.titlebar.separator),
                r.titlebar_separator_color,
            )
            &&& color_key_sets(
                p,
                t.banner_warning_bg,
                background_value(f.banner.warning.background),
                r.banner_warning_bg,
            )
            &&& color_key_sets(p, t.banner_warning_fg, f.banner.warning.color, r.banner_warning_fg)
            &&& color_key_sets(p, t.input_bg, background_value(f.input.background), r.input_bg)
            &&& color_key_sets(
                p,
                t.input_border_color,
                border_value(f.input.border),
                r.input_border_color,
            )
            &&& color_key_sets(
                p,
                t.input_focus_border,
                border_value(f.input.border_focus),
                r.input_focus_border,
            )
            &&& color_key_sets(
                p,
                t.button_primary_bg,
                background_value(f.button.primary.background),
                r.button_primary_bg,
            )
            &&& color_key_sets(p, t.button_primary_fg, f.button.primary.color, r.button_primary_fg)
            &&& color_key_sets(
                p,
                t.button_secondary_bg,
                background_value(f.button.secondary.background),
                r.button_secondary_bg,
            )
            &&& color_key_sets(
                p,
                t.button_secondary_fg,
                f.button.secondary.color,
                r.button_secondary_fg,
            )
            &&& color_key_sets(
                p,
                t.button_secondary_border,
                border_value(f.button.secondary.border),
                r.button_secondary_border,
            )
            &&& r.mono_bg == t.mono_bg && r.mono_fg == t.mono_fg && r.dark == t.dark
        }),
{
}

/// Every other key of a theme file that is set overrides its token; an
/// absent key leaves it as it was.
pub proof fn lemma_merge_sets_other_keys<F>(t: Tokens<F>, f: ThemeFile<F>)
    ensures
        ({
            let r = merge_spec(t, f);
            &&& key_sets(t.window_radius, f.window.radius, r.window_radius)
            &&& key_sets(t.window_padding, f.window.padding, r.window_padding)
            &&& key_sets(
                t.window_border_width,
                border_width_value(f.window.border),
                r.window_border_width,
            )
            &&& match f.font.family {
                Some(name) => r.font_family == Some(name),
                None => r.font_family == t.font_family,
            }
            &&& key_sets(t.font_size, f.font.size, r.font_size)
            &&& key_sets(t.titlebar_show, f.titlebar.show, r.titlebar_show)
            &&& key_sets(t.titlebar_height, f.titlebar.height, r.titlebar_height)
            &&& key_sets(t.titlebar_icon, f.titlebar.icon, r.titlebar_icon)
            &&& key_sets(
                t.titlebar_separator_width,
                border_width_value(f.titlebar.separator),
                r.titlebar_separator_width,
            )
            &&& key_sets(t.heading_size, f.heading.size, r.heading_size)
            &&& key_sets(t.input_radius, f.input.radius, r.input_radius)
            &&& key_sets(t.button_radius, f.button.radius, r.button_radius)
            &&& match f.button.padding {
                Some(pad) => key_sets(t.button_padding[0], pad.x, r.button_padding[0]) && key_sets(
                    t.button_padding[1],
                    pad.y,
                    r.button_padding[1],
                ),
                None => r.button_padding == t.button_padding,
            }
        }),
{
}

} // verus!

verus! {

proof fn lemma_palette_get_slot(p: Palette, name: Seq<char>)
    ensures
        palette_get(p, name) == if slot_index(name) < 5 {
            Some(get_slot(p, slot_index(name)))
        } else {
            None::<Color>
        },
{
}

proof fn lemma_last_set_unique(entries: Seq<(String, ColorText)>, k: int, i: int)
    requires
        0 <= k < 5,
        0 <= i < entries.len(),
        slot_index(entries[i].0@) == k,
        entry_color(entries[i]) is Some,
        forall|j: int|
            0 <= j < entries.len() && j != i ==> slot_index(#[trigger] entries[j].0@) != k,
    ensures
        sets_slot(entries, k),
        last_set(entries, k) == entry_color(entries[i])->Some_0,
    decreases entries.len(),
{
    if i < entries.len() - 1 {
        let init = entries.drop_last();
        assert(slot_index(entries[entries.len() - 1].0@) != k);
        assert forall|j: int| 0 <= j < init.len() && j != i implies slot_index(
            #[trigger] init[j].0@,
        ) != k by {
            assert(init[j] == entries[j]);
        }
        lemma_last_set_unique(init, k, i);
    }
}

proof fn lemma_not_sets_slot(entries: Seq<(String, ColorText)>, k: int)
    requires
        forall|j: int|
            0 <= j < entries.len() ==> slot_index(#[trigger] entries[j].0@) != k || entry_color(
                entries[j],
            ) is None,
    ensures
        !sets_slot(entries, k),
    decreases entries.len(),
{
    if entries.len() > 0 {
        let init = entries.drop_last();
        assert(entries.last() == entries[entries.len() - 1]);
        assert forall|j: int| 0 <= j < init.len() implies slot_index(#[trigger] init[j].0@) != k
            || entry_color(init[j]) is None by {
            assert(init[j] == entries[j]);
        }
        lemma_not_sets_slot(init, k);
    }
}

/// The `[colors]` table overrides the palette: an entry that names a
/// palette color and whose value is a color text sets that palette color
/// to it (a table names each color once).
pub proof fn lemma_colors_entry_sets_palette<F>(t: Tokens<F>, f: ThemeFile<F>, i: int)
    requires
        f.wf(),
        0 <= i < f.colors@.len(),
        palette_get(palette_of(t), f.colors@[i].0@) is Some,
        parse_color_spec(f.colors@[i].1.text@, f.colors@[i].1.alpha) is Some,
    ensures
        palette_get(palette_of(merge_spec(t, f)), f.colors@[i].0@) == parse_color_spec(
            f.colors@[i].1.text@,
            f.colors@[i].1.alpha,
        ),
{
    let es = f.colors@;
    let k = slot_index(es[i].0@);
    lemma_palette_get_slot(palette_of(t), es[i].0@);
    assert forall|j: int| 0 <= j < es.len() && j != i implies slot_index(#[trigger] es[j].0@) != k by {
        if slot_index(es[j].0@) == k {
            if j < i {
                super::file::lemma_color_names_distinct(es, j, i);
            } else {
                super::file::lemma_color_names_distinct(es, i, j);
            }
        }
    }
    lemma_last_set_unique(es, k, i);
    lemma_apply_colors_slot(palette_of(t), es, k);
    lemma_palette_get_slot(palette_of(merge_spec(t, f)), es[i].0@);
}

/// A palette color that no `[colors]` entry sets to a color text keeps
/// its value.
pub proof fn lemma_palette_color_kept<F>(t: Tokens<F>, f: ThemeFile<F>, name: Seq<char>)
    requires
        palette_get(palette_of(t), name) is Some,
        forall|j: int|
            0 <= j < f.colors@.len() && (#[trigger] f.colors@[j]).0@ == name ==> parse_color_spec(
                f.colors@[j].1.text@,
                f.colors@[j].1.alpha,
            ) is None,
    ensures
        palette_get(palette_of(merge_spec(t, f)), name) == palette_get(palette_of(t), name),
{
    let es = f.colors@;
    let k = slot_index(name);
    lemma_palette_get_slot(palette_of(t), name);
    assert forall|j: int| 0 <= j < es.len() implies slot_index(#[trigger] es[j].0@) != k
        || entry_color(es[j]) is None by {
        if slot_index(es[j].0@) == k {
            assert(es[j].0@ == name);
        }
    }
    lemma_not_sets_slot(es, k);
    lemma_apply_colors_slot(palette_of(t), es, k);
    lemma_palette_get_slot(palette_of(merge_spec(t, f)), name);
}

} // verus!

verus! {

/// The entry at `i` of a `[colors]` table is not a color.
pub open spec fn entry_invalid_at(entries: Seq<(String, ColorText)>, i: int, w: (Seq<char>, Seq<char>)) -> bool {
    &&& 0 <= i < entries.len()
    &&& parse_color_spec(entries[i].1.text@, entries[i].1.alpha) is None
    &&& w == (entries[i].0@, entries[i].1.text@)
}

/// The reported `[colors]` entries are exactly those whose value is not a
/// color, by name and value.
pub proof fn lemma_invalid_colors_reported(entries: Seq<(String, ColorText)>)
    ensures
        forall|w: (Seq<char>, Seq<char>)|
            invalid_colors(entries).contains(w) <==> exists|i: int| entry_invalid_at(entries, i, w),
    decreases entries.len(),
{
    if entries.len() > 0 {
        let init = entries.drop_last();
        let n = entries.len() - 1;
        lemma_invalid_colors_reported(init);
        assert forall|w: (Seq<char>, Seq<char>)|
            invalid_colors(entries).contains(w) <==> exists|i: int| entry_invalid_at(entries, i, w) by {
            let prev = invalid_colors(init);
            if invalid_colors(entries).contains(w) {
                let k = choose|k: int| 0 <= k < invalid_colors(entries).len() && invalid_colors(entries)[k] == w;
                if k < prev.len() {
                    assert(prev[k] == w);
                    assert(prev.contains(w));
                    let i = choose|i: int| entry_invalid_at(init, i, w);
                    assert(init[i] == entries[i]);
                    assert(entry_invalid_at(entries, i, w));
                } else {
                    assert(entry_invalid_at(entries, n, w));
                }
            }
            if exists|i: int| entry_invalid_at(entries, i, w) {
                let i = choose|i: int| entry_invalid_at(entries, i, w);
                if i < n {
                    assert(init[i] == entries[i]);
                    assert(entry_invalid_at(init, i, w));
                    assert(prev.contains(w));
                    let k = choose|k: int| 0 <= k < prev.len() && prev[k] == w;
                    if entry_color(entries.last()) is None {
                        assert(invalid_colors(entries)[k] == w);
                    }
                    assert(invalid_colors(entries).contains(w));
                } else {
                    assert(entries.last() == entries[n]);
                    assert(invalid_colors(entries) == prev.push(w));
                    assert(invalid_colors(entries)[prev.len() as int] == w);
                }
            }
        }
    }
}

} // verus!

verus! {

/// The five palette names read the five palette colors, and setting a
/// name's color is what reading it then gives, with every other name
/// unchanged; any other name is no palette color.
pub proof fn lemma_palette_get_set(p: Palette, name: Seq<char>, other: Seq<char>, c: Color)
    ensures
        palette_get(p, "foreground"@) == Some(p.foreground),
        palette_get(p, "muted"@) == Some(p.muted),
        palette_get(p, "accent"@) == Some(p.accent),
        palette_get(p, "warning"@) == Some(p.warning),
        palette_get(p, "danger"@) == Some(p.danger),
        palette_get(p, name) is Some ==> palette_get(palette_set(p, name, c), name) == Some(c),
        palette_get(p, name) is None ==> palette_set(p, name, c) == p,
        other != name ==> palette_get(palette_set(p, name, c), other) == palette_get(p, other),
{
    reveal_strlit("foreground");
    reveal_strlit("muted");
    reveal_strlit("accent");
    reveal_strlit("warning");
    reveal_strlit("danger");
    assert("muted"@.len() != "foreground"@.len());
    assert("accent"@.len() != "foreground"@.len() && "accent"@.len() != "muted"@.len());
    assert("warning"@.len() != "foreground"@.len() && "warning"@.len() != "muted"@.len());
    assert("warning"@.len() != "accent"@.len());
    assert("danger"@.len() != "foreground"@.len() && "danger"@.len() != "muted"@.len());
    assert("danger"@.len() != "warning"@.len() && "danger"@[0] != "accent"@[0]);
}

} // verus!
