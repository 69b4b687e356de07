use tomotroid::color::Rgb;
use tomotroid::theme::{theme_logo_svg, update_prg_svg, JsonTheme};

fn rgb(r: u8, g: u8, b: u8) -> Rgb {
    Rgb { red: r, green: g, blue: b }
}

#[test]
fn progress_circle_text() {
    let template = "<circle style=\"stroke:#9ca5b5\"/><path style=\"stroke:#ff4e4d\" stroke-dasharray=\"100, 100\"/>";
    let out = update_prg_svg(template, rgb(1, 2, 3), rgb(0xff, 0x10, 0x00), "42.5");
    assert_eq!(
        out,
        "<circle style=\"stroke:#010203\"/><path style=\"stroke:#FF1000\" stroke-dasharray=\"42.5, 100\"/>"
    );
}

#[test]
fn progress_circle_matches_str_replace() {
    let template = "a stroke:#9ca5b5 b stroke:#ff4e4d c stroke-dasharray=\"100, 100\" d stroke:#ff4e4d";
    let expected = template
        .replace("stroke:#9ca5b5", "stroke:#AABBCC")
        .replace("stroke:#ff4e4d", "stroke:#112233")
        .replace("stroke-dasharray=\"100, 100\"", "stroke-dasharray=\"100, 100\"");
    let out = update_prg_svg(template, rgb(0xaa, 0xbb, 0xcc), rgb(0x11, 0x22, 0x33), "100");
    assert_eq!(out, expected);
}

#[test]
fn logo_text_in_theme_colours() {
    let theme = JsonTheme {
        name: String::from("T"),
        long_round: rgb(0, 0, 0),
        short_round: rgb(0, 0, 0),
        focus_round: rgb(0xff, 0, 0),
        background: rgb(0x10, 0x20, 0x30),
        background_light: rgb(0, 0, 0),
        background_lightest: rgb(0, 0, 0),
        foreground: rgb(0xee, 0xee, 0xee),
        foreground_darker: rgb(0, 0, 0),
        foreground_darkest: rgb(0, 0, 0),
        accent: rgb(0, 0xcc, 0),
    };
    let template = "stroke:#2f384b|fill:#ff4e4d|fill:#992e2e|fill:#f6f2eb|fill:#05ec8c|fill:#ff4e4d";
    let out = theme_logo_svg(template, &theme, rgb(0x99, 0, 0));
    assert_eq!(out, "stroke:#102030|fill:#FF0000|fill:#990000|fill:#EEEEEE|fill:#00CC00|fill:#FF0000");
}
