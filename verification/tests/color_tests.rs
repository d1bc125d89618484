use confet::color::{parse_colors, parse_hex_color};
use confet::types::{default_colors, Rgb};

fn list(texts: &[&str]) -> Vec<String> {
    texts.iter().map(|t| t.to_string()).collect()
}

#[test]
fn hex_colour_with_and_without_hash() {
    assert_eq!(parse_hex_color("#ff8800"), Some(Rgb::bytes(255, 136, 0)));
    assert_eq!(parse_hex_color("ff8800"), Some(Rgb::bytes(255, 136, 0)));
    assert_eq!(parse_hex_color("#000000"), Some(Rgb::bytes(0, 0, 0)));
    assert_eq!(parse_hex_color("#ffffff"), Some(Rgb::bytes(255, 255, 255)));
    assert_eq!(parse_hex_color("#a12dff"), Some(Rgb::bytes(161, 45, 255)));
}

#[test]
fn hex_colour_in_either_case() {
    assert_eq!(parse_hex_color("#FF8800"), Some(Rgb::bytes(255, 136, 0)));
    assert_eq!(parse_hex_color("#aBcDeF"), Some(Rgb::bytes(0xab, 0xcd, 0xef)));
    assert_eq!(parse_hex_color("09AFaf"), Some(Rgb::bytes(0x09, 0xaf, 0xaf)));
}

#[test]
fn hex_colour_of_the_wrong_length() {
    assert_eq!(parse_hex_color(""), None);
    assert_eq!(parse_hex_color("#"), None);
    assert_eq!(parse_hex_color("#fff"), None);
    assert_eq!(parse_hex_color("#ff880"), None);
    assert_eq!(parse_hex_color("#ff88000"), None);
    assert_eq!(parse_hex_color("ff88001"), None);
    assert_eq!(parse_hex_color("##ff8800"), None);
}

#[test]
fn hex_colour_with_a_wrong_digit() {
    assert_eq!(parse_hex_color("#gg8800"), None);
    assert_eq!(parse_hex_color("#ff88 0"), None);
    assert_eq!(parse_hex_color("#ff-800"), None);
    assert_eq!(parse_hex_color("#ff88/0"), None);
    assert_eq!(parse_hex_color("#ff88:0"), None);
    assert_eq!(parse_hex_color("#ff88@0"), None);
    assert_eq!(parse_hex_color("#ff88G0"), None);
    assert_eq!(parse_hex_color("#ff88`0"), None);
    assert_eq!(parse_hex_color("#ff88g0"), None);
    assert_eq!(parse_hex_color(" ff8800"), None);
}

#[test]
fn hex_colour_takes_a_sign_for_a_first_digit() {
    assert_eq!(parse_hex_color("+f+f+f"), Some(Rgb::bytes(15, 15, 15)));
    assert_eq!(parse_hex_color("#+a00+1"), Some(Rgb::bytes(10, 0, 1)));
    assert_eq!(parse_hex_color("#f+0000"), None);
    assert_eq!(parse_hex_color("#++0000"), None);
    assert_eq!(parse_hex_color("#-f0000"), None);
}

#[test]
fn hex_colour_agrees_with_the_standard_parser() {
    for text in ["00", "ff", "+f", "f+", "++", "-1", "0g", "A9", "zz", " 1", "7F"] {
        let expected = u8::from_str_radix(text, 16).ok();
        let colour = parse_hex_color(&format!("{}0000", text));
        assert_eq!(colour.map(|c| c.red), expected);
    }
}

#[test]
fn hex_colour_outside_ascii() {
    assert_eq!(parse_hex_color("\u{e9}\u{e9}12"), None);
    assert_eq!(parse_hex_color("#\u{e9}f8800"), None);
    assert_eq!(parse_hex_color("\u{ff10}\u{ff10}0000"), None);
    assert_eq!(parse_hex_color("ff880\u{660}"), None);
}

#[test]
fn colours_are_read_in_order() {
    assert_eq!(
        parse_colors(&list(&["#ff0000", "00ff00", "#0000FF"])),
        vec![Rgb::bytes(255, 0, 0), Rgb::bytes(0, 255, 0), Rgb::bytes(0, 0, 255)]
    );
}

#[test]
fn colours_are_trimmed() {
    assert_eq!(
        parse_colors(&list(&[" #ff0000", "#00ff00  ", "\t#0000ff\n", "  102030  "])),
        vec![
            Rgb::bytes(255, 0, 0),
            Rgb::bytes(0, 255, 0),
            Rgb::bytes(0, 0, 255),
            Rgb::bytes(0x10, 0x20, 0x30),
        ]
    );
}

#[test]
fn colours_are_trimmed_of_white_space_outside_ascii() {
    assert_eq!(
        parse_colors(&list(&["\u{a0}#ff0000\u{3000}", "\u{2003}#00ff00", "#0000ff\u{85}"])),
        vec![Rgb::bytes(255, 0, 0), Rgb::bytes(0, 255, 0), Rgb::bytes(0, 0, 255)]
    );
}

#[test]
fn colours_keep_white_space_inside() {
    assert_eq!(parse_colors(&list(&["#ff 000", "# ff0000", "#00ff00"])), vec![Rgb::bytes(0, 255, 0)]);
}

#[test]
fn colours_that_are_not_white_space_are_not_trimmed() {
    assert_eq!(
        parse_colors(&list(&["_#ff0000", "#ff0000.", "\u{200b}#ff0000", "#123456"])),
        vec![Rgb::bytes(0x12, 0x34, 0x56)]
    );
}

#[test]
fn invalid_colours_are_passed_over() {
    assert_eq!(
        parse_colors(&list(&["red", "#ff0000", "", "#12345", "#0000ff", "#gggggg"])),
        vec![Rgb::bytes(255, 0, 0), Rgb::bytes(0, 0, 255)]
    );
}

#[test]
fn no_valid_colour_gives_the_default_palette() {
    assert_eq!(parse_colors(&list(&[])), default_colors());
    assert_eq!(parse_colors(&list(&["red", "green"])), default_colors());
    assert_eq!(parse_colors(&list(&["   "])), default_colors());
}

#[test]
fn parsed_colours_are_in_255ths() {
    for c in parse_colors(&list(&["#ff0000", "#010203"])) {
        assert_eq!(c.full, 255);
    }
}
