use specialfx::presets::{
    by_name, command_line_error_from_quoted, list_from_quoted, parse_color, ColorChoice, Preset,
    NAMES,
};

#[test]
fn finds_presets_by_name() {
    assert_eq!(by_name("night"), Some(Preset::Night));
    assert_eq!(by_name("red"), Some(Preset::Red));
    assert_eq!(by_name("dim"), Some(Preset::Dim));
    assert_eq!(by_name("blue"), None);
    assert_eq!(by_name(""), None);
    assert_eq!(by_name("nights"), None);
    assert_eq!(by_name(" night"), None);
}

#[test]
fn names_ignore_case() {
    assert_eq!(by_name("NIGHT"), Some(Preset::Night));
    assert_eq!(by_name("Red"), Some(Preset::Red));
    assert_eq!(by_name("dIm"), Some(Preset::Dim));
}

#[test]
fn names_list_matches_presets() {
    assert_eq!(NAMES, ["night", "red", "dim"]);
    for n in NAMES {
        assert_eq!(by_name(n).unwrap().name(), n);
    }
    assert_eq!(Preset::Night.name(), "night");
}

#[test]
fn command_line_colour_prefers_presets() {
    assert_eq!(parse_color("Dim").unwrap(), ColorChoice::Preset(Preset::Dim));
    assert_eq!(parse_color("#0040ff").unwrap(), ColorChoice::Hex([0, 0x40, 0xff, 255]));
    assert_eq!(parse_color("fed").unwrap(), ColorChoice::Hex([0xff, 0xee, 0xdd, 255]));
    assert_eq!(
        parse_color("zz"),
        Err(r#"invalid colour "zz": expected #rgb, #rrggbb or #rrggbbaa, or one of ["night", "red", "dim"]"#.to_string())
    );
    assert_eq!(
        parse_color("purple").unwrap_err(),
        format!("invalid colour {:?}: expected #rgb, #rrggbb or #rrggbbaa, or one of {:?}", "purple", NAMES)
    );
}

#[test]
fn lists_like_debug() {
    let items = vec!["\"a\"".to_string(), "\"b\"".to_string()];
    assert_eq!(list_from_quoted(&items), "[\"a\", \"b\"]");
    assert_eq!(list_from_quoted(&vec![]), "[]");
    assert_eq!(list_from_quoted(&vec!["x".to_string()]), "[x]");
}

#[test]
fn command_line_error_from_parts() {
    let names = vec!["N".to_string(), "R".to_string()];
    assert_eq!(
        command_line_error_from_quoted("Q", &names),
        "invalid colour Q: expected #rgb, #rrggbb or #rrggbbaa, or one of [N, R]"
    );
}
