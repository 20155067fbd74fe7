use nokto_theme::color_map::ColorMap;
use nokto_theme::palette::{
    Ansi, Border, Btn, BtnState, Canvas, Codemirror, Primer, PrimerBorder, Primitives, Scale,
    StateColors,
};
use nokto_theme::scope::Scope;
use nokto_theme::theme::{
    add, add_alpha, apply_color_rules, build_theme, theme_color_rules, BaseThemeTokens,
    ALPHA_TWENTY,
};
use nokto_theme::token::{TokenColor, TokenSettings, COMMENT};

fn s(x: &str) -> String {
    x.to_string()
}

fn state(prefix: &str) -> StateColors {
    StateColors {
        default: s(&format!("{}-default", prefix)),
        fg: s(&format!("{}-fg", prefix)),
        muted: s(&format!("{}-muted", prefix)),
        subtle: s(&format!("{}-subtle", prefix)),
        emphasis: s(&format!("{}-emphasis", prefix)),
        on_emphasis: s(&format!("{}-on", prefix)),
    }
}

fn primitives() -> Primitives {
    Primitives {
        fg: StateColors { default: s("#E6EDF3"), ..state("fg") },
        canvas: Canvas { default: s("#0d1117"), overlay: s("#161b22"), inset: s("#010409"), subtle: s("#161b22") },
        border: Border { default: s("#30363d"), muted: s("#21262d") },
        neutral: StateColors { subtle: s("rgba(110,118,129,0.1)"), ..state("neutral") },
        accent: state("accent"),
        success: state("success"),
        attention: state("attention"),
        danger: state("danger"),
        scale: Scale {
            black: s("#010409"),
            white: s("#ffffff"),
            gray: vec![],
            blue: vec![],
            green: vec![],
            yellow: vec![],
            orange: vec![],
            red: vec![],
            purple: vec![],
            pink: vec![],
        },
        severe: state("severe"),
        ansi: Ansi {
            black: s("#484f58"),
            black_bright: s("x"),
            white: s("#b1bac4"),
            white_bright: s("x"),
            gray: s("x"),
            red: s("#ec8e2c"),
            red_bright: s("x"),
            green: s("#58a6ff"),
            green_bright: s("x"),
            yellow: s("#d29922"),
            yellow_bright: s("x"),
            blue: s("#58a6ff"),
            blue_bright: s("x"),
            magenta: s("#bc8cff"),
            magenta_bright: s("x"),
            cyan: s("#39c5cf"),
            cyan_bright: s("x"),
        },
        btn: Btn {
            bg: s("x"),
            hover_bg: s("x"),
            primary: BtnState { bg: s("x"), text: s("#ffffff"), hover_bg: s("#3c8aff") },
            active_bg: s("x"),
            text: s("x"),
        },
        codemirror: Codemirror { activeline_bg: s("rgba(110,118,129,0.1)") },
        primer: Primer { border: PrimerBorder { active: s("x") } },
    }
}

#[test]
fn add_normalises_the_colour() {
    let mut m = ColorMap::new();
    add(&mut m, "focusBorder", "#3D5FCF");
    add(&mut m, "weird", "not a colour");
    add_alpha(&mut m, "list.activeSelectionBackground", "#3d5fcf", ALPHA_TWENTY);
    assert_eq!(m.get("focusBorder"), Some(&s("#3d5fcf")));
    assert_eq!(m.get("weird"), Some(&s("not a colour")));
    assert_eq!(m.get("list.activeSelectionBackground"), Some(&s("#3d5fcf33")));
}

#[test]
fn the_rules_name_every_key_once() {
    let rules = theme_color_rules();
    assert_eq!(rules.len(), 106);
    assert_eq!(rules[0].key, "focusBorder");
    assert_eq!(rules[105].key, "symbolIcon.variableForeground");
    let mut keys: Vec<&str> = rules.iter().map(|r| r.key).collect();
    keys.sort();
    keys.dedup();
    assert_eq!(keys.len(), 106);
}

#[test]
fn rules_resolve_against_the_palette() {
    let p = primitives();
    let mut m = ColorMap::new();
    apply_color_rules(&mut m, &p, &theme_color_rules());
    assert_eq!(m.len(), 106);
    assert_eq!(m.get("foreground"), Some(&s("#e6edf3")));
    assert_eq!(m.get("focusBorder"), Some(&s("#3d5fcf")));
    assert_eq!(m.get("widget.shadow"), Some(&s("#010409d9")));
    assert_eq!(m.get("list.hoverBackground"), Some(&s("#6e768180")));
    assert_eq!(m.get("editor.lineHighlightBackground"), Some(&s("#6e76811a")));
    assert_eq!(m.get("symbolIcon.classForeground"), Some(&s("#4ec9b0")));
    assert_eq!(m.get("symbolIcon.enumeratorMemberForeground"), Some(&s("#ff9e64")));
    assert_eq!(m.get("descriptionForeground"), Some(&s("fg-muted")));
    assert_eq!(m.get("terminal.ansiRed"), Some(&s("#ec8e2c")));
}

#[test]
fn build_theme_assembles_everything() {
    let p = primitives();
    let base = BaseThemeTokens {
        token_colors: vec![TokenColor {
            name: None,
            scope: Scope::single("comment"),
            settings: TokenSettings { foreground: None, background: None, font_style: None },
        }],
        semantic_token_colors: Some(vec![(s("variable"), s("#9cdcfe")), (s("class"), s("#4ec9b0"))]),
    };
    let t = build_theme(&p, &theme_color_rules(), base);
    assert_eq!(t.name, "Nokto Theme");
    assert!(t.semantic_highlighting);
    assert_eq!(t.colors.len(), 106);
    let stc = t.semantic_token_colors.expect("semantic colours");
    let keys: Vec<&str> = stc.entries().iter().map(|e| e.0.as_str()).collect();
    assert_eq!(keys, vec!["class", "variable"]);
    assert_eq!(t.token_colors[0].settings.foreground.as_deref(), Some(COMMENT));
}

#[test]
fn build_theme_without_semantic_colours() {
    let p = primitives();
    let base = BaseThemeTokens { token_colors: vec![], semantic_token_colors: None };
    let t = build_theme(&p, &theme_color_rules(), base);
    assert_eq!(t.semantic_token_colors.map(|m| m.len()), Some(0));
    assert!(t.token_colors.is_empty());
}
