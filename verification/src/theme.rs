use vstd::prelude::*;
use crate::color::{Rgb, hex_color, color_to_hex_string};
use crate::text::{replaced, replace_all};

verus! {

/// A colour theme as it is listed: its name and its colours.
pub struct JsonTheme {
    pub name: String,
    pub long_round: Rgb,
    pub short_round: Rgb,
    pub focus_round: Rgb,
    pub background: Rgb,
    pub background_light: Rgb,
    pub background_lightest: Rgb,
    pub foreground: Rgb,
    pub foreground_darker: Rgb,
    pub foreground_darkest: Rgb,
    pub accent: Rgb,
}

/// The colours that the window draws with, and the index of the theme they came from.
#[derive(Clone, Copy, PartialEq, Eq, Debug, Structural)]
pub struct Theme {
    pub theme_idx: i32,
    pub long_round: Rgb,
    pub short_round: Rgb,
    pub focus_round: Rgb,
    pub background: Rgb,
    pub background_light: Rgb,
    pub background_lightest: Rgb,
    pub foreground: Rgb,
    pub foreground_darker: Rgb,
    pub foreground_darkest: Rgb,
    pub accent: Rgb,
}

/// The window colours for theme `t` at index `idx`.
pub open spec fn theme_from(idx: i32, t: &JsonTheme) -> Theme {
    Theme {
        theme_idx: idx,
        long_round: t.long_round,
        short_round: t.short_round,
        focus_round: t.focus_round,
        background: t.background,
        background_light: t.background_light,
        background_lightest: t.background_lightest,
        foreground: t.foreground,
        foreground_darker: t.foreground_darker,
        foreground_darkest: t.foreground_darkest,
        accent: t.accent,
    }
}

impl Theme {
    /// The window colours for theme `theme` at index `idx`.
    pub fn from_json(idx: i32, theme: &JsonTheme) -> (res: Theme)
        ensures
            res == theme_from(idx, theme),
    {
        Theme {
            theme_idx: idx,
            long_round: theme.long_round,
            short_round: theme.short_round,
            focus_round: theme.focus_round,
            background: theme.background,
            background_light: theme.background_light,
            background_lightest: theme.background_lightest,
            foreground: theme.foreground,
            foreground_darker: theme.foreground_darker,
            foreground_darkest: theme.foreground_darkest,
            accent: theme.accent,
        }
    }
}

/// Whether `i` is the first index of a theme named `name`.
pub open spec fn is_first_named(themes: Seq<JsonTheme>, name: Seq<char>, i: int) -> bool {
    &&& 0 <= i < themes.len()
    &&& themes[i].name@ == name
    &&& forall|j: int| 0 <= j < i ==> themes[j].name@ != name
}

/// The index of the first theme named `name`, if any is.
pub fn find_theme(themes: &Vec<JsonTheme>, name: &String) -> (res: Option<usize>)
    ensures
        res matches Some(i) ==> is_first_named(themes@, name@, i as int),
        res is None ==> forall|j: int| 0 <= j < themes@.len() ==> themes@[j].name@ != name@,
{
    let mut i: usize = 0;
    while i < themes.len()
        invariant
            i <= themes@.len(),
            forall|j: int| 0 <= j < i ==> themes@[j].name@ != name@,
        decreases themes@.len() - i,
    {
        if themes[i].name == *name {
            return Some(i);
        }
        i += 1;
    }
    None
}

/// `prefix` followed by the `#RRGGBB` notation of a colour.
fn prefixed_hex(prefix: &str, c: Rgb) -> (res: String)
    ensures
        res@ == prefix@ + hex_color(c),
{
    let mut s = String::from_str(prefix);
    let h = color_to_hex_string(c);
    s.append(h.as_str());
    s
}

/// The logo drawn in a theme's colours: in the logo's text the outline colour becomes the
/// background, the two shades of the tomato become the focus colour and its darker shade, the
/// highlight the foreground and the leaf the accent.
pub open spec fn logo_text(template: Seq<char>, t: &JsonTheme, focus_darker: Rgb) -> Seq<char> {
    let a = replaced(template, "stroke:#2f384b"@, "stroke:"@ + hex_color(t.background));
    let b = replaced(a, "fill:#ff4e4d"@, "fill:"@ + hex_color(t.focus_round));
    let c = replaced(b, "fill:#992e2e"@, "fill:"@ + hex_color(focus_darker));
    let d = replaced(c, "fill:#f6f2eb"@, "fill:"@ + hex_color(t.foreground));
    replaced(d, "fill:#05ec8c"@, "fill:"@ + hex_color(t.accent))
}

/// The logo's SVG text in a theme's colours; `focus_darker` is the darker shade of the
/// theme's focus colour.
pub fn theme_logo_svg(template: &str, theme: &JsonTheme, focus_darker: Rgb) -> (res: String)
    ensures
        res@ == logo_text(template@, theme, focus_darker),
{
    proof {
        reveal_strlit("stroke:#2f384b");
        reveal_strlit("fill:#ff4e4d");
        reveal_strlit("fill:#992e2e");
        reveal_strlit("fill:#f6f2eb");
        reveal_strlit("fill:#05ec8c");
    }
    let r = prefixed_hex("stroke:", theme.background);
    let a = replace_all(template, "stroke:#2f384b", r.as_str());
    let r = prefixed_hex("fill:", theme.focus_round);
    let b = replace_all(a.as_str(), "fill:#ff4e4d", r.as_str());
    let r = prefixed_hex("fill:", focus_darker);
    let c = replace_all(b.as_str(), "fill:#992e2e", r.as_str());
    let r = prefixed_hex("fill:", theme.foreground);
    let d = replace_all(c.as_str(), "fill:#f6f2eb", r.as_str());
    let r = prefixed_hex("fill:", theme.accent);
    replace_all(d.as_str(), "fill:#05ec8c", r.as_str())
}

/// The progress circle drawn with background ring `bg`, progress arc `fg`, and the arc
/// covering `rem_per` percent.
pub open spec fn progress_text(template: Seq<char>, bg: Rgb, fg: Rgb, rem_per: Seq<char>) -> Seq<char> {
    let a = replaced(template, "stroke:#9ca5b5"@, "stroke:"@ + hex_color(bg));
    let b = replaced(a, "stroke:#ff4e4d"@, "stroke:"@ + hex_color(fg));
    replaced(b, "stroke-dasharray=\"100, 100\""@, "stroke-dasharray=\""@ + rem_per + ", 100\""@)
}

/// The progress circle's SVG text: the ring in `bg_clr`, the arc in `fg_clr`, the arc's
/// length the percentage written in `rem_per`.
pub fn update_prg_svg(template: &str, bg_clr: Rgb, fg_clr: Rgb, rem_per: &str) -> (res: String)
    ensures
        res@ == progress_text(template@, bg_clr, fg_clr, rem_per@),
{
    proof {
        reveal_strlit("stroke:#9ca5b5");
        reveal_strlit("stroke:#ff4e4d");
        reveal_strlit("stroke-dasharray=\"100, 100\"");
    }
    let r = prefixed_hex("stroke:", bg_clr);
    let a = replace_all(template, "stroke:#9ca5b5", r.as_str());
    let r = prefixed_hex("stroke:", fg_clr);
    let b = replace_all(a.as_str(), "stroke:#ff4e4d", r.as_str());
    let mut r = String::from_str("stroke-dasharray=\"");
    r.append(rem_per);
    r.append(", 100\"");
    replace_all(b.as_str(), "stroke-dasharray=\"100, 100\"", r.as_str())
}

/// Each window colour is the chosen theme's colour of the same name, and the index is the one
/// given.
pub proof fn lemma_theme_colours(idx: i32, t: &JsonTheme)
    ensures
        theme_from(idx, t).theme_idx == idx,
        theme_from(idx, t).long_round == t.long_round,
        theme_from(idx, t).short_round == t.short_round,
        theme_from(idx, t).focus_round == t.focus_round,
        theme_from(idx, t).background == t.background,
        theme_from(idx, t).background_light == t.background_light,
        theme_from(idx, t).background_lightest == t.background_lightest,
        theme_from(idx, t).foreground == t.foreground,
        theme_from(idx, t).foreground_darker == t.foreground_darker,
        theme_from(idx, t).foreground_darkest == t.foreground_darkest,
        theme_from(idx, t).accent == t.accent,
{
}

} // verus!
