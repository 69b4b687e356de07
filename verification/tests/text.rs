use tomotroid::color::{color_to_hex_string, Rgb};
use tomotroid::text::{chars_of, decimal_string, replace_all};

#[test]
fn hex_string_of_colours() {
    assert_eq!(color_to_hex_string(Rgb { red: 255, green: 0, blue: 16 }), "#FF0010");
    assert_eq!(color_to_hex_string(Rgb { red: 0, green: 0, blue: 0 }), "#000000");
    assert_eq!(color_to_hex_string(Rgb { red: 0xab, green: 0xcd, blue: 0xef }), "#ABCDEF");
    assert_eq!(color_to_hex_string(Rgb { red: 0x2f, green: 0x38, blue: 0x4b }), "#2F384B");
}

#[test]
fn hex_string_matches_format() {
    for v in [0u8, 1, 9, 10, 15, 16, 127, 128, 200, 255] {
        let c = Rgb { red: v, green: v.wrapping_mul(7), blue: v.wrapping_add(3) };
        let expected = format!("#{:02X}{:02X}{:02X}", c.red, c.green, c.blue);
        assert_eq!(color_to_hex_string(c), expected);
    }
}

#[test]
fn distinct_colours_give_distinct_strings() {
    let a = color_to_hex_string(Rgb { red: 1, green: 2, blue: 3 });
    let b = color_to_hex_string(Rgb { red: 1, green: 2, blue: 4 });
    assert_ne!(a, b);
    assert_eq!(a.len(), 7);
    assert!(a.starts_with('#'));
}

#[test]
fn decimal_strings() {
    assert_eq!(decimal_string(0), "0");
    assert_eq!(decimal_string(7), "7");
    assert_eq!(decimal_string(-25), "-25");
    assert_eq!(decimal_string(1234567), "1234567");
    assert_eq!(decimal_string(i64::MIN), format!("{}", i64::MIN));
    assert_eq!(decimal_string(i64::MAX), format!("{}", i64::MAX));
}

#[test]
fn chars_in_order() {
    assert_eq!(chars_of("aé#"), vec!['a', 'é', '#']);
    assert_eq!(chars_of(""), Vec::<char>::new());
}

#[test]
fn replacing_patterns() {
    assert_eq!(replace_all("aXbX", "X", "yy"), "ayybyy");
    assert_eq!(replace_all("aaa", "aa", "b"), "ba");
    assert_eq!(replace_all("nothing here", "zz", "q"), "nothing here");
    assert_eq!(replace_all("", "a", "b"), "");
    assert_eq!(replace_all("stroke:#9ca5b5;x", "stroke:#9ca5b5", "stroke:#000000"), "stroke:#000000;x");
    let s = "fill:#ff4e4d stroke:#ff4e4d fill:#ff4e4d";
    assert_eq!(replace_all(s, "fill:#ff4e4d", "fill:#123456"), s.replace("fill:#ff4e4d", "fill:#123456"));
}
