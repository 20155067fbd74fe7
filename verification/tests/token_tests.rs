use nokto_theme::scope::Scope;
use nokto_theme::token::{
    foreground_for_kind, restyle_token, restyle_tokens, token_variant_name, TokenColor,
    TokenSettings, COMMENT, FUNCTION_FOREGROUND, KEYWORD_FOREGROUND, STRING_FOREGROUND,
    VARIABLE_FOREGROUND,
};

fn rule(name: Option<&str>, scope: Scope, fg: Option<&str>, style: Option<&str>) -> TokenColor {
    TokenColor {
        name: name.map(|s| s.to_string()),
        scope,
        settings: TokenSettings {
            foreground: fg.map(|s| s.to_string()),
            background: None,
            font_style: style.map(|s| s.to_string()),
        },
    }
}

#[test]
fn scope_single_contains_keyword() {
    let s = Scope::single("comment.line.double-slash");
    assert!(s.contains_keyword("comment"));
    assert!(!s.contains_keyword("string"));
    assert!(s.contains_keyword(""));
}

#[test]
fn scope_multiple_contains_keyword() {
    let s = Scope::multiple(vec!["string", "punctuation.definition.comment"]);
    assert!(s.contains_keyword("comment"));
    assert!(!s.contains_keyword("keyword"));
    let empty = Scope::multiple(vec![]);
    assert!(!empty.contains_keyword(""));
}

#[test]
fn variant_names_join_capitalised_words() {
    assert_eq!(token_variant_name("Keyword - General"), "KeywordGeneral");
    assert_eq!(token_variant_name("keyword general"), "KeywordGeneral");
    assert_eq!(token_variant_name("Literal: String (Value)"), "LiteralStringValue");
    assert_eq!(token_variant_name("identifier/function"), "IdentifierFunction");
    assert_eq!(token_variant_name("a&b"), "AB");
    assert_eq!(token_variant_name("  Spaced\tout\n"), "SpacedOut");
    assert_eq!(token_variant_name("wide\u{3000}space"), "WideSpace");
    assert_eq!(token_variant_name("::--"), "");
    assert_eq!(token_variant_name("élan vital"), "ÉlanVital");
    assert_eq!(token_variant_name("straße"), "Straße");
}

#[test]
fn kinds_get_their_foregrounds() {
    assert_eq!(foreground_for_kind("KeywordGeneral"), Some(KEYWORD_FOREGROUND));
    assert_eq!(foreground_for_kind("IdentifierVariable"), Some(VARIABLE_FOREGROUND));
    assert_eq!(foreground_for_kind("IdentifierProperty"), Some(VARIABLE_FOREGROUND));
    assert_eq!(foreground_for_kind("IdentifierFunction"), Some(FUNCTION_FOREGROUND));
    assert_eq!(foreground_for_kind("LiteralString"), Some(STRING_FOREGROUND));
    assert_eq!(foreground_for_kind("LiteralStringValue"), Some(STRING_FOREGROUND));
    assert_eq!(foreground_for_kind("LiteralStringTag"), Some(STRING_FOREGROUND));
    assert_eq!(foreground_for_kind("KeywordControl"), None);
}

#[test]
fn comments_become_green_italic() {
    let t = restyle_token(rule(None, Scope::single("comment"), Some("#123456"), None));
    assert_eq!(t.settings.foreground.as_deref(), Some(COMMENT));
    assert_eq!(t.settings.font_style.as_deref(), Some("italic"));
    assert_eq!(t.name, None);
}

#[test]
fn comment_rule_wins_over_its_name() {
    let t = restyle_token(rule(
        Some("Keyword General"),
        Scope::multiple(vec!["keyword", "comment.block"]),
        Some("#000000"),
        Some("bold"),
    ));
    assert_eq!(t.settings.foreground.as_deref(), Some(COMMENT));
    assert_eq!(t.settings.font_style.as_deref(), Some("italic"));
}

#[test]
fn named_kinds_are_recoloured() {
    let t = restyle_token(rule(Some("Keyword - General"), Scope::single("keyword"), Some("#000000"), Some("bold")));
    assert_eq!(t.settings.foreground.as_deref(), Some(KEYWORD_FOREGROUND));
    assert_eq!(t.settings.font_style.as_deref(), Some("bold"));
    assert_eq!(t.name.as_deref(), Some("Keyword - General"));
}

#[test]
fn other_kinds_are_kept() {
    let t = restyle_token(rule(Some("Keyword Control"), Scope::single("keyword.control"), Some("#c586c0"), None));
    assert_eq!(t.settings.foreground.as_deref(), Some("#c586c0"));
    assert_eq!(t.settings.font_style, None);
}

#[test]
fn restyling_twice_is_restyling_once() {
    let make = || {
        vec![
            rule(None, Scope::single("comment"), None, None),
            rule(Some("Literal String"), Scope::single("string"), Some("#ffffff"), None),
            rule(Some("Other"), Scope::single("meta"), Some("#abcdef"), Some("underline")),
        ]
    };
    let once = restyle_tokens(make());
    let twice = restyle_tokens(restyle_tokens(make()));
    assert_eq!(once.len(), 3);
    for (a, b) in once.iter().zip(twice.iter()) {
        assert_eq!(a.name, b.name);
        assert_eq!(a.settings.foreground, b.settings.foreground);
        assert_eq!(a.settings.font_style, b.settings.font_style);
    }
    assert_eq!(once[1].settings.foreground.as_deref(), Some(STRING_FOREGROUND));
}
