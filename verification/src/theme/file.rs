//! The model of `theme.toml`. Every key is optional; unknown sections and
//! keys are not represented. Reading the file and its TOML syntax is done
//! by the caller, which fills these types.
use vstd::prelude::*;

verus! {

/// A color value as written in the theme file. `alpha` is the byte that
/// the fourth component of a functional form (`rgba(r, g, b, a)`) stands
/// for, `round(clamp(a, 0, 1) * 255)`, which the caller reads from the
/// text that `color::alpha_component` finds; it is `None` when there is no
/// such component or it is not a number.
#[derive(Debug, Clone)]
pub struct ColorText {
    pub text: String,
    pub alpha: Option<u8>,
}

/// A background: a plain color, or a gradient of which (until gradients
/// are rendered) the first stop is used.
#[derive(Debug)]
pub enum Background {
    Color(ColorText),
    Gradient(Vec<ColorText>),
}

pub open spec fn first_color_spec(bg: Background) -> Option<ColorText> {
    match bg {
        Background::Color(c) => Some(c),
        Background::Gradient(stops) => if stops@.len() > 0 {
            Some(stops@[0])
        } else {
            None
        },
    }
}

impl Background {
    /// The color that stands for the whole background.
    pub fn first_color(&self) -> (c: Option<&ColorText>)
        ensures
            match c {
                Some(c) => first_color_spec(*self) == Some(*c),
                None => first_color_spec(*self) is None,
            },
    {
        match self {
            Background::Color(color) => Some(color),
            Background::Gradient(stops) => {
                if stops.len() > 0 {
                    Some(&stops[0])
                } else {
                    None
                }
            },
        }
    }
}

#[derive(Debug)]
pub struct BorderSpec<F> {
    pub color: Option<ColorText>,
    pub width: Option<F>,
}

#[derive(Debug)]
pub struct PaddingSpec<F> {
    pub x: Option<F>,
    pub y: Option<F>,
}

#[derive(Debug)]
pub struct WindowSection<F> {
    pub background: Option<Background>,
    pub radius: Option<F>,
    pub padding: Option<F>,
    pub border: Option<BorderSpec<F>>,
}

#[derive(Debug)]
pub struct FontSection<F> {
    pub family: Option<String>,
    pub size: Option<F>,
}

#[derive(Debug)]
pub struct TitlebarSection<F> {
    pub show: Option<bool>,
    pub height: Option<F>,
    pub icon: Option<String>,
    pub background: Option<Background>,
    pub color: Option<ColorText>,
    pub separator: Option<BorderSpec<F>>,
}

#[derive(Debug)]
pub struct HeadingSection<F> {
    pub size: Option<F>,
    pub color: Option<ColorText>,
}

#[derive(Debug)]
pub struct BannerStyle {
    pub background: Option<Background>,
    pub color: Option<ColorText>,
}

#[derive(Debug)]
pub struct BannerSection {
    pub warning: BannerStyle,
}

#[derive(Debug)]
pub struct InputSection<F> {
    pub radius: Option<F>,
    pub background: Option<Background>,
    pub border: Option<BorderSpec<F>>,
    pub border_focus: Option<BorderSpec<F>>,
}

#[derive(Debug)]
pub struct ButtonStyle<F> {
    pub background: Option<Background>,
    pub color: Option<ColorText>,
    pub border: Option<BorderSpec<F>>,
}

#[derive(Debug)]
pub struct ButtonSection<F> {
    pub radius: Option<F>,
    pub padding: Option<PaddingSpec<F>>,
    pub primary: ButtonStyle<F>,
    pub secondary: ButtonStyle<F>,
}

/// Whether `a` comes before `b` in the order of `String`: lexicographic by
/// code point (the order of their UTF-8 bytes).
pub open spec fn text_lt(a: Seq<char>, b: Seq<char>) -> bool
    decreases a.len(),
{
    if a.len() == 0 {
        b.len() > 0
    } else if b.len() == 0 {
        false
    } else if a[0] != b[0] {
        a[0] < b[0]
    } else {
        text_lt(a.drop_first(), b.drop_first())
    }
}

/// The entries of a table as a sorted map holds them: each name comes
/// before the next.
pub open spec fn keys_in_order(colors: Seq<(String, ColorText)>) -> bool {
    forall|k: int| 0 <= k < colors.len() - 1 ==> text_lt(#[trigger] colors[k].0@, colors[k + 1].0@)
}

/// A theme file. `colors` holds the `[colors]` table in key order.
#[derive(Debug)]
pub struct ThemeFile<F> {
    pub window: WindowSection<F>,
    pub font: FontSection<F>,
    pub colors: Vec<(String, ColorText)>,
    pub titlebar: TitlebarSection<F>,
    pub heading: HeadingSection<F>,
    pub banner: BannerSection,
    pub input: InputSection<F>,
    pub button: ButtonSection<F>,
}

pub open spec fn empty_button_style<F>(s: ButtonStyle<F>) -> bool {
    s.background is None && s.color is None && s.border is None
}

/// A theme file that sets nothing.
pub open spec fn is_empty_file<F>(f: ThemeFile<F>) -> bool {
    &&& f.window.background is None && f.window.radius is None && f.window.padding is None
    &&& f.window.border is None
    &&& f.font.family is None && f.font.size is None
    &&& f.colors@.len() == 0
    &&& f.titlebar.show is None && f.titlebar.height is None && f.titlebar.icon is None
    &&& f.titlebar.background is None && f.titlebar.color is None && f.titlebar.separator is None
    &&& f.heading.size is None && f.heading.color is None
    &&& f.banner.warning.background is None && f.banner.warning.color is None
    &&& f.input.radius is None && f.input.background is None && f.input.border is None
    &&& f.input.border_focus is None
    &&& f.button.radius is None && f.button.padding is None
    &&& empty_button_style(f.button.primary) && empty_button_style(f.button.secondary)
}

impl<F> ButtonStyle<F> {
    pub fn empty() -> (s: ButtonStyle<F>)
        ensures
            empty_button_style(s),
    {
        ButtonStyle { background: None, color: None, border: None }
    }
}

/// Whether `a` comes before `b` in the order of `String`.
pub fn text_less(a: &str, b: &str) -> (r: bool)
    ensures
        r == text_lt(a@, b@),
{
    let n = a.unicode_len();
    let m = b.unicode_len();
    let mut i: usize = 0;
    assert(a@.skip(0) =~= a@);
    assert(b@.skip(0) =~= b@);
    while i < n && i < m
        invariant
            n == a@.len(),
            m == b@.len(),
            i <= n,
            i <= m,
            text_lt(a@, b@) == text_lt(a@.skip(i as int), b@.skip(i as int)),
        decreases n - i,
    {
        let x = a.get_char(i);
        let y = b.get_char(i);
        assert(a@.skip(i as int)[0] == x);
        assert(b@.skip(i as int)[0] == y);
        if x != y {
            return x < y;
        }
        assert(a@.skip(i as int).drop_first() =~= a@.skip(i + 1));
        assert(b@.skip(i as int).drop_first() =~= b@.skip(i + 1));
        i = i + 1;
    }
    i == n && i < m
}

proof fn lemma_text_lt_irreflexive(a: Seq<char>)
    ensures
        !text_lt(a, a),
    decreases a.len(),
{
    if a.len() > 0 {
        lemma_text_lt_irreflexive(a.drop_first());
    }
}

proof fn lemma_text_lt_transitive(a: Seq<char>, b: Seq<char>, c: Seq<char>)
    requires
        text_lt(a, b),
        text_lt(b, c),
    ensures
        text_lt(a, c),
    decreases a.len(),
{
    if a.len() > 0 && a[0] == b[0] && b[0] == c[0] {
        lemma_text_lt_transitive(a.drop_first(), b.drop_first(), c.drop_first());
    }
}

proof fn lemma_keys_in_order_apart(colors: Seq<(String, ColorText)>, i: int, j: int)
    requires
        keys_in_order(colors),
        0 <= i < j < colors.len(),
    ensures
        text_lt(colors[i].0@, colors[j].0@),
    decreases j - i,
{
    if j > i + 1 {
        lemma_keys_in_order_apart(colors, i, j - 1);
        lemma_text_lt_transitive(colors[i].0@, colors[j - 1].0@, colors[j].0@);
    }
}

/// A table in key order names no color twice.
pub proof fn lemma_color_names_distinct(colors: Seq<(String, ColorText)>, i: int, j: int)
    requires
        keys_in_order(colors),
        0 <= i < j < colors.len(),
    ensures
        colors[i].0@ != colors[j].0@,
{
    lemma_keys_in_order_apart(colors, i, j);
    lemma_text_lt_irreflexive(colors[i].0@);
}

impl<F> ThemeFile<F> {
    /// The `[colors]` table is in key order, as the table of a TOML file
    /// read into a sorted map is: no name occurs twice.
    pub open spec fn wf(&self) -> bool {
        keys_in_order(self.colors@)
    }

    /// Whether the `[colors]` table is in key order.
    pub fn colors_in_order(&self) -> (r: bool)
        ensures
            r == self.wf(),
    {
        let n = self.colors.len();
        if n == 0 {
            return true;
        }
        let mut i: usize = 1;
        while i < n
            invariant
                n == self.colors@.len(),
                1 <= i <= n,
                forall|k: int|
                    0 <= k < i - 1 ==> text_lt(#[trigger] self.colors@[k].0@, self.colors@[k + 1].0@),
            decreases n - i,
        {
            if !text_less(self.colors[i - 1].0.as_str(), self.colors[i].0.as_str()) {
                return false;
            }
            i = i + 1;
        }
        true
    }

    /// A theme file with no section and no key.
    pub fn empty() -> (f: ThemeFile<F>)
        ensures
            is_empty_file(f),
            f.wf(),
    {
        ThemeFile {
            window: WindowSection { background: None, radius: None, padding: None, border: None },
            font: FontSection { family: None, size: None },
            colors: Vec::new(),
            titlebar: TitlebarSection {
                show: None,
                height: None,
                icon: None,
                background: None,
                color: None,
                separator: None,
            },
            heading: HeadingSection { size: None, color: None },
            banner: BannerSection { warning: BannerStyle { background: None, color: None } },
            input: InputSection { radius: None, background: None, border: None, border_focus: None },
            button: ButtonSection {
                radius: None,
                padding: None,
                primary: ButtonStyle::empty(),
                secondary: ButtonStyle::empty(),
            },
        }
    }
}

} // verus!
