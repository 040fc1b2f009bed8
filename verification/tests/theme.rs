use tree_painter::{Error, HighlightError, Malformed, Theme};

const RED_KEYWORD: &str = "keyword = \"red\"\n\n[palette]\nred = \"#ff0000\"\n";

#[test]
fn keyword_takes_the_palette_color() {
    let theme = Theme::from_helix(RED_KEYWORD).unwrap();
    let style = theme.style(11).unwrap();
    assert_eq!(style.color, "#ff0000");
    assert!(!style.is_bold);
    assert!(!style.is_italic);
}

#[test]
fn scopes_without_entry_have_no_style() {
    let theme = Theme::from_helix(RED_KEYWORD).unwrap();
    for index in 0..27 {
        assert_eq!(theme.style(index).is_some(), index == 11, "scope {index}");
    }
    assert!(theme.style(27).is_none());
    assert!(theme.style(usize::MAX).is_none());
}

#[test]
fn every_resolved_entry_is_in_the_theme() {
    let data = "attribute = \"a\"\ncomment = { fg = \"b\" }\n\"variable.parameter\" = \"c\"\n\n\
                [palette]\na = \"#111\"\nb = \"#222\"\nc = \"#333\"\n";
    let theme = Theme::from_helix(data).unwrap();
    assert_eq!(theme.style(0).unwrap().color, "#111");
    assert_eq!(theme.style(1).unwrap().color, "#222");
    assert_eq!(theme.style(26).unwrap().color, "#333");
    assert!(theme.style(2).is_none());
}

#[test]
fn missing_background_falls_back_to_black() {
    let theme = Theme::from_helix(RED_KEYWORD).unwrap();
    assert_eq!(theme.background().color, "#000");
    assert!(!theme.background().is_bold);
    assert!(!theme.background().is_italic);
}

#[test]
fn missing_text_falls_back_to_white() {
    let theme = Theme::from_helix(RED_KEYWORD).unwrap();
    assert_eq!(theme.foreground().color, "#fff");
    assert!(!theme.foreground().is_bold);
    assert!(!theme.foreground().is_italic);
}

#[test]
fn table_entry_with_both_modifiers() {
    let data = "keyword = { fg = \"red\", modifiers = [\"bold\", \"italic\"] }\n\n\
                [palette]\nred = \"#ff0000\"\n";
    let theme = Theme::from_helix(data).unwrap();
    let style = theme.style(11).unwrap();
    assert_eq!(style.color, "#ff0000");
    assert!(style.is_bold);
    assert!(style.is_italic);
}

#[test]
fn table_entry_with_one_modifier() {
    let data = "string = { fg = \"red\", modifiers = [\"italic\"] }\n\
                type = { fg = \"red\", modifiers = [\"bold\"] }\n\n\
                [palette]\nred = \"#ff0000\"\n";
    let theme = Theme::from_helix(data).unwrap();
    assert!(!theme.style(21).unwrap().is_bold);
    assert!(theme.style(21).unwrap().is_italic);
    assert!(theme.style(22).unwrap().is_bold);
    assert!(!theme.style(22).unwrap().is_italic);
}

#[test]
fn unknown_modifiers_are_ignored() {
    let data = "keyword = { fg = \"red\", modifiers = [\"dim\", 3, \"underlined\", [\"bold\"]] }\n\n\
                [palette]\nred = \"#ff0000\"\n";
    let theme = Theme::from_helix(data).unwrap();
    let style = theme.style(11).unwrap();
    assert_eq!(style.color, "#ff0000");
    assert!(!style.is_bold);
    assert!(!style.is_italic);
}

#[test]
fn modifiers_that_are_no_list_are_ignored() {
    let data = "keyword = { fg = \"red\", modifiers = \"bold\" }\n\n[palette]\nred = \"#ff0000\"\n";
    let theme = Theme::from_helix(data).unwrap();
    assert!(!theme.style(11).unwrap().is_bold);
}

#[test]
fn background_reads_the_bg_field() {
    let data = "\"ui.background\" = { bg = \"night\", modifiers = [\"bold\"] }\n\n\
                [palette]\nnight = \"#010203\"\n";
    let theme = Theme::from_helix(data).unwrap();
    assert_eq!(theme.background().color, "#010203");
    assert!(!theme.background().is_bold);
}

#[test]
fn background_without_bg_falls_back_to_black() {
    let data = "\"ui.background\" = { fg = \"night\" }\n\n[palette]\nnight = \"#010203\"\n";
    let theme = Theme::from_helix(data).unwrap();
    assert_eq!(theme.background().color, "#000");
}

#[test]
fn background_that_is_no_table_falls_back_to_black() {
    let data = "\"ui.background\" = \"night\"\n\n[palette]\nnight = \"#010203\"\n";
    let theme = Theme::from_helix(data).unwrap();
    assert_eq!(theme.background().color, "#000");
}

#[test]
fn text_as_reference() {
    let data = "\"ui.text\" = \"ink\"\n\n[palette]\nink = \"#0a0b0c\"\n";
    let theme = Theme::from_helix(data).unwrap();
    assert_eq!(theme.foreground().color, "#0a0b0c");
}

#[test]
fn text_as_table_takes_modifiers() {
    let data = "\"ui.text\" = { fg = \"ink\", modifiers = [\"italic\"] }\n\n\
                [palette]\nink = \"#0a0b0c\"\n";
    let theme = Theme::from_helix(data).unwrap();
    assert_eq!(theme.foreground().color, "#0a0b0c");
    assert!(theme.foreground().is_italic);
    assert!(!theme.foreground().is_bold);
}

#[test]
fn text_with_unknown_reference_falls_back_to_white() {
    let data = "\"ui.text\" = \"nowhere\"\n\n[palette]\nink = \"#0a0b0c\"\n";
    let theme = Theme::from_helix(data).unwrap();
    assert_eq!(theme.foreground().color, "#fff");
}

#[test]
fn entries_of_other_kinds_are_absent() {
    let data = "keyword = 7\nstring = [\"red\"]\ncomment = true\n\n[palette]\nred = \"#ff0000\"\n";
    let theme = Theme::from_helix(data).unwrap();
    assert!(theme.style(11).is_none());
    assert!(theme.style(21).is_none());
    assert!(theme.style(1).is_none());
}

#[test]
fn entries_that_name_no_scope_are_ignored() {
    let data = "\"ui.cursor\" = \"nowhere\"\nwarning = { fg = \"nowhere\" }\n\n\
                [palette]\nred = \"#ff0000\"\n";
    let theme = Theme::from_helix(data).unwrap();
    for index in 0..27 {
        assert!(theme.style(index).is_none());
    }
}

#[test]
fn invalid_toml_is_a_toml_error() {
    for data in ["keyword = ", "[palette", "= = =", "[palette]\nred = #ff0000\n"] {
        assert!(
            matches!(Theme::from_helix(data), Err(Error::Toml(Malformed::Syntax(_)))),
            "{data}"
        );
    }
}

#[test]
fn missing_palette_is_a_malformed_document() {
    for data in ["keyword = \"red\"\n", "keyword = 'red'\n", "", "[ui]\ntext = \"a\"\n"] {
        assert!(
            matches!(Theme::from_helix(data), Err(Error::Toml(Malformed::MissingPalette))),
            "{data}"
        );
    }
}

#[test]
fn missing_palette_comes_before_unknown_references() {
    let data = "keyword = { fg = \"nowhere\" }\n\"ui.background\" = { bg = \"nowhere\" }\n";
    assert!(matches!(Theme::from_helix(data), Err(Error::Toml(Malformed::MissingPalette))));
}

#[test]
fn unknown_reference_names_the_scope() {
    let data = "keyword = \"blue\"\n\n[palette]\nred = \"#ff0000\"\n";
    match Theme::from_helix(data) {
        Err(Error::InvalidColorReference(name)) => assert_eq!(name, "keyword"),
        _ => panic!("expected an unresolved reference"),
    }
}

#[test]
fn unknown_fg_names_the_field() {
    let data = "keyword = { fg = \"blue\" }\n\n[palette]\nred = \"#ff0000\"\n";
    match Theme::from_helix(data) {
        Err(Error::InvalidColorReference(name)) => assert_eq!(name, "fg"),
        _ => panic!("expected an unresolved reference"),
    }
}

#[test]
fn table_without_fg_names_the_field() {
    let data = "keyword = { modifiers = [\"bold\"] }\n\n[palette]\nred = \"#ff0000\"\n";
    match Theme::from_helix(data) {
        Err(Error::InvalidColorReference(name)) => assert_eq!(name, "fg"),
        _ => panic!("expected an unresolved reference"),
    }
}

#[test]
fn fg_that_is_no_string_names_the_field() {
    let data = "keyword = { fg = 3 }\n\n[palette]\nred = \"#ff0000\"\n";
    match Theme::from_helix(data) {
        Err(Error::InvalidColorReference(name)) => assert_eq!(name, "fg"),
        _ => panic!("expected an unresolved reference"),
    }
}

#[test]
fn unknown_bg_names_the_field() {
    let data = "\"ui.background\" = { bg = \"blue\" }\n\n[palette]\nred = \"#ff0000\"\n";
    match Theme::from_helix(data) {
        Err(Error::InvalidColorReference(name)) => assert_eq!(name, "bg"),
        _ => panic!("expected an unresolved reference"),
    }
}

#[test]
fn unknown_fg_of_text_names_the_field() {
    let data = "\"ui.text\" = { fg = \"blue\" }\n\n[palette]\nred = \"#ff0000\"\n";
    match Theme::from_helix(data) {
        Err(Error::InvalidColorReference(name)) => assert_eq!(name, "fg"),
        _ => panic!("expected an unresolved reference"),
    }
}

#[test]
fn palette_entry_that_is_no_string_does_not_resolve() {
    let data = "keyword = \"red\"\n\n[palette]\nred = 16711680\n";
    match Theme::from_helix(data) {
        Err(Error::InvalidColorReference(name)) => assert_eq!(name, "keyword"),
        _ => panic!("expected an unresolved reference"),
    }
}

#[test]
fn palette_that_is_no_table_defines_nothing() {
    let data = "palette = 3\nkeyword = \"red\"\n";
    match Theme::from_helix(data) {
        Err(Error::InvalidColorReference(name)) => assert_eq!(name, "keyword"),
        _ => panic!("expected an unresolved reference"),
    }
    assert!(Theme::from_helix("palette = 3\n").is_ok());
}

#[test]
fn first_failing_scope_is_reported() {
    let data = "string = \"nowhere\"\ncomment = { fg = \"nowhere\" }\n\
                \"ui.background\" = { bg = \"nowhere\" }\n\n[palette]\nred = \"#ff0000\"\n";
    match Theme::from_helix(data) {
        Err(Error::InvalidColorReference(name)) => assert_eq!(name, "fg"),
        _ => panic!("expected an unresolved reference"),
    }
    let data = "string = \"nowhere\"\nkeyword = \"nowhere\"\n\
                \"ui.background\" = { bg = \"nowhere\" }\n\n[palette]\nred = \"#ff0000\"\n";
    match Theme::from_helix(data) {
        Err(Error::InvalidColorReference(name)) => assert_eq!(name, "keyword"),
        _ => panic!("expected an unresolved reference"),
    }
}

#[test]
fn scopes_are_resolved_before_the_background() {
    let data = "\"variable.parameter\" = \"nowhere\"\n\"ui.background\" = { bg = \"nowhere\" }\n\
                \"ui.text\" = { fg = \"nowhere\" }\n\n[palette]\n";
    match Theme::from_helix(data) {
        Err(Error::InvalidColorReference(name)) => assert_eq!(name, "variable.parameter"),
        _ => panic!("expected an unresolved reference"),
    }
}

#[test]
fn background_is_resolved_before_the_text() {
    let data = "\"ui.background\" = { bg = \"nowhere\" }\n\"ui.text\" = { fg = \"nowhere\" }\n\n\
                [palette]\n";
    match Theme::from_helix(data) {
        Err(Error::InvalidColorReference(name)) => assert_eq!(name, "bg"),
        _ => panic!("expected an unresolved reference"),
    }
}

#[test]
fn dotted_scope_names_are_quoted_keys() {
    let data = "\"function.method\" = \"red\"\n\n[palette]\nred = \"#ff0000\"\n";
    let theme = Theme::from_helix(data).unwrap();
    assert_eq!(theme.style(8).unwrap().color, "#ff0000");
    assert!(theme.style(6).is_none());
}

#[test]
fn color_values_are_kept_as_written() {
    let data = "keyword = \"c\"\n\n[palette]\nc = \"rgb(1, 2, 3)\"\n";
    let theme = Theme::from_helix(data).unwrap();
    assert_eq!(theme.style(11).unwrap().color, "rgb(1, 2, 3)");
}

#[test]
fn message_of_each_error() {
    assert_eq!(
        Theme::from_helix("").err().unwrap().message(),
        "toml parse eror: the palette is missing"
    );
    assert_eq!(Error::InvalidTheme.message(), "toml does not contain valid helix theme");
    assert_eq!(
        Error::InvalidColorReference("keyword".to_string()).message(),
        "toml color keyword not found"
    );
    assert_eq!(Error::InvalidColorReference(String::new()).message(), "toml color  not found");
    assert_eq!(
        Error::Highlighting(HighlightError::Cancelled).message(),
        "highlighting failed: Cancelled"
    );
    assert_eq!(
        Error::Highlighting(HighlightError::InvalidLanguage).message(),
        "highlighting failed: Invalid language"
    );
    assert_eq!(
        Error::Highlighting(HighlightError::Unknown).message(),
        "highlighting failed: Unknown error"
    );
    assert_eq!(Error::InvariantViolation.message(), "highlight events are not well-formed");
}

#[test]
fn message_of_a_text_that_is_no_toml_goes_on_with_the_parser() {
    let error = Theme::from_helix("keyword = ").err().unwrap();
    let message = error.message();
    assert!(message.starts_with("toml parse eror: "));
    assert!(message.len() > "toml parse eror: ".len());
    match error {
        Error::Toml(Malformed::Syntax(cause)) => {
            assert_eq!(message, format!("toml parse eror: {}", cause));
        }
        _ => panic!("expected a syntax error"),
    }
}

#[test]
fn messages_of_the_highlighter_are_its_own() {
    assert_eq!(HighlightError::Cancelled.text(), tree_sitter_highlight::Error::Cancelled.to_string());
    assert_eq!(
        HighlightError::InvalidLanguage.text(),
        tree_sitter_highlight::Error::InvalidLanguage.to_string()
    );
    assert_eq!(HighlightError::Unknown.text(), tree_sitter_highlight::Error::Unknown.to_string());
}
