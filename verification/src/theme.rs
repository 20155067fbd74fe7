//! The theme itself: its colour table, built from the palette by a list of
//! rules, and the assembly of the theme from the palette and the base tokens.

use vstd::prelude::*;
use crate::color::{hex, alpha, is_alpha_form_of, is_normal_form_of};
use crate::color_map::{ColorMap, insert_all};
use crate::palette::{PaletteRef, Primitives, palette_color, palette_entry};
use crate::token::{
    TokenColor, can_restyle, restyled, restyle_tokens, FUNCTION_FOREGROUND, VARIABLE_FOREGROUND,
};

verus! {

/// The theme's accent.
pub const ACCENT: &'static str = "#3d5fcf";

/// Bright text on the accent.
pub const BRIGHT_ACCENT_TEXT: &'static str = "#85a5ff";

/// Added lines.
pub const DIFF_GREEN: &'static str = "#48e477";

/// Removed lines.
pub const DIFF_RED: &'static str = "#f85149";

/// Background of side bars and inactive tabs.
pub const SOFT_DARK_BG: &'static str = "#080b10";

/// Status bar text.
pub const SOFT_WHITE: &'static str = "#e9e9e9";

/// Title bar text.
pub const DIM_WHITE: &'static str = "#b1bac4";

/// Errors.
pub const ERROR: &'static str = "#eb5353";

/// Warnings.
pub const WARNING: &'static str = "#e4a341";

/// Information.
pub const INFO: &'static str = "#3794ff";

/// Icons of types and enumerations.
pub const TYPE_ICON: &'static str = "#4EC9B0";

/// Icons of enumeration members.
pub const VARIANT_ICON: &'static str = "#FF9E64";

/// The theme's name.
pub const THEME_NAME: &'static str = "Nokto Theme";

/// Alpha 0.5 as a byte, as `csscolorparser` scales it (`a * 255 + 0.5`, truncated).
pub const ALPHA_HALF: u8 = 128;

/// Alpha 0.2 as a byte.
pub const ALPHA_TWENTY: u8 = 51;

/// Alpha 0.1 as a byte.
pub const ALPHA_TEN: u8 = 26;

/// Alpha 0.25 as a byte.
pub const ALPHA_QUARTER: u8 = 64;

/// Alpha 0.3 as a byte.
pub const ALPHA_THIRTY: u8 = 77;

/// Alpha 0.4 as a byte.
pub const ALPHA_FORTY: u8 = 102;

/// Alpha 0.15 as a byte.
pub const ALPHA_FIFTEEN: u8 = 38;

/// Inserts `hex(value)` under `key`.
pub fn add(colors: &mut ColorMap, key: &str, value: &str)
    ensures
        exists|v: Seq<char>|
            is_normal_form_of(value@, v) && final(colors)@ == old(colors)@.insert(key@, v),
        final(colors)@.dom().finite(),
        final(colors)@.dom().len() == old(colors)@.dom().len() + if old(colors)@.contains_key(
            key@,
        ) {
            0int
        } else {
            1int
        },
{
    let v = hex(value);
    colors.insert(key.to_owned(), v);
}

/// Inserts `alpha(value, a)` under `key`.
pub fn add_alpha(colors: &mut ColorMap, key: &str, value: &str, a: u8)
    ensures
        exists|v: Seq<char>|
            is_alpha_form_of(value@, a, v) && final(colors)@ == old(colors)@.insert(key@, v),
        final(colors)@.dom().finite(),
        final(colors)@.dom().len() == old(colors)@.dom().len() + if old(colors)@.contains_key(
            key@,
        ) {
            0int
        } else {
            1int
        },
{
    let v = alpha(value, a);
    colors.insert(key.to_owned(), v);
}

/// Where a theme colour comes from: a fixed colour or a palette entry.
#[derive(Clone, Copy)]
pub enum ColorSource {
    Fixed(&'static str),
    Palette(PaletteRef),
}

/// One entry of the theme's colour table: its key, its colour, and the
/// alpha byte that replaces the colour's own alpha, if any.
#[derive(Clone, Copy)]
pub struct ColorRule {
    pub key: &'static str,
    pub source: ColorSource,
    pub alpha: Option<u8>,
}

/// The colour a source stands for, given the palette.
pub open spec fn source_color(p: Primitives, s: ColorSource) -> Seq<char> {
    match s {
        ColorSource::Fixed(c) => c@,
        ColorSource::Palette(r) => palette_entry(p, r),
    }
}

/// `v` is a colour that the rule can add: a normal form of its source's
/// colour, with the rule's alpha where it has one.
pub open spec fn rule_value_ok(p: Primitives, r: ColorRule, v: Seq<char>) -> bool {
    match r.alpha {
        Some(a) => is_alpha_form_of(source_color(p, r.source), a, v),
        None => is_normal_form_of(source_color(p, r.source), v),
    }
}

/// `vals` holds, for each rule, a colour that the rule can add.
pub open spec fn rule_values_ok(p: Primitives, rules: Seq<ColorRule>, vals: Seq<Seq<char>>) -> bool {
    &&& vals.len() == rules.len()
    &&& forall|i: int| 0 <= i < rules.len() ==> rule_value_ok(p, #[trigger] rules[i], vals[i])
}

/// The entries that the rules add, given the colour each one adds.
pub open spec fn rule_entries(rules: Seq<ColorRule>, vals: Seq<Seq<char>>) -> Seq<
    (Seq<char>, Seq<char>),
> {
    Seq::new(rules.len(), |i: int| (rules[i].key@, vals[i]))
}

/// The rules of the theme's colour table, in the order their entries are
/// added.
pub open spec fn theme_rules() -> Seq<ColorRule> {
    seq![
        ColorRule { key: "focusBorder", source: ColorSource::Fixed(ACCENT), alpha: None },
        ColorRule { key: "foreground", source: ColorSource::Palette(PaletteRef::FgDefault), alpha: None },
        ColorRule { key: "descriptionForeground", source: ColorSource::Palette(PaletteRef::FgMuted), alpha: None },
        ColorRule { key: "errorForeground", source: ColorSource::Palette(PaletteRef::DangerFg), alpha: None },
        ColorRule { key: "widget.shadow", source: ColorSource::Fixed("rgba(1,4,9,0.85)"), alpha: None },
        ColorRule { key: "textLink.foreground", source: ColorSource::Fixed(BRIGHT_ACCENT_TEXT), alpha: None },
        ColorRule { key: "textLink.activeForeground", source: ColorSource::Fixed(BRIGHT_ACCENT_TEXT), alpha: None },
        ColorRule { key: "button.background", source: ColorSource::Fixed(ACCENT), alpha: None },
        ColorRule { key: "button.foreground", source: ColorSource::Palette(PaletteRef::BtnPrimaryText), alpha: None },
        ColorRule { key: "button.hoverBackground", source: ColorSource::Palette(PaletteRef::BtnPrimaryHoverBg), alpha: None },
        ColorRule { key: "badge.background", source: ColorSource::Fixed(ACCENT), alpha: None },
        ColorRule { key: "progressBar.background", source: ColorSource::Fixed(ACCENT), alpha: None },
        ColorRule { key: "input.background", source: ColorSource::Palette(PaletteRef::CanvasDefault), alpha: None },
        ColorRule { key: "input.border", source: ColorSource::Palette(PaletteRef::BorderDefault), alpha: None },
        ColorRule { key: "input.foreground", source: ColorSource::Palette(PaletteRef::FgDefault), alpha: None },
        ColorRule { key: "input.placeholderForeground", source: ColorSource::Palette(PaletteRef::FgSubtle), alpha: None },
        ColorRule { key: "dropdown.background", source: ColorSource::Palette(PaletteRef::CanvasOverlay), alpha: None },
        ColorRule { key: "dropdown.border", source: ColorSource::Palette(PaletteRef::BorderDefault), alpha: None },
        ColorRule { key: "dropdown.foreground", source: ColorSource::Palette(PaletteRef::FgDefault), alpha: None },
        ColorRule { key: "list.highlightForeground", source: ColorSource::Fixed(BRIGHT_ACCENT_TEXT), alpha: None },
        ColorRule { key: "list.activeSelectionForeground", source: ColorSource::Fixed(BRIGHT_ACCENT_TEXT), alpha: None },
        ColorRule { key: "list.hoverBackground", source: ColorSource::Palette(PaletteRef::NeutralSubtle), alpha: Some(ALPHA_HALF) },
        ColorRule { key: "list.activeSelectionBackground", source: ColorSource::Fixed(ACCENT), alpha: Some(ALPHA_TWENTY) },
        ColorRule { key: "list.inactiveSelectionBackground", source: ColorSource::Palette(PaletteRef::NeutralMuted), alpha: Some(ALPHA_HALF) },
        ColorRule { key: "list.dropBackground", source: ColorSource::Palette(PaletteRef::NeutralMuted), alpha: None },
        ColorRule { key: "activityBar.background", source: ColorSource::Palette(PaletteRef::CanvasDefault), alpha: None },
        ColorRule { key: "activityBar.foreground", source: ColorSource::Palette(PaletteRef::FgDefault), alpha: None },
        ColorRule { key: "activityBar.inactiveForeground", source: ColorSource::Palette(PaletteRef::FgMuted), alpha: None },
        ColorRule { key: "activityBar.border", source: ColorSource::Palette(PaletteRef::BorderDefault), alpha: None },
        ColorRule { key: "activityBar.activeBorder", source: ColorSource::Fixed(ACCENT), alpha: None },
        ColorRule { key: "activityBarBadge.background", source: ColorSource::Fixed(ACCENT), alpha: None },
        ColorRule { key: "sideBar.background", source: ColorSource::Fixed(SOFT_DARK_BG), alpha: None },
        ColorRule { key: "sideBar.foreground", source: ColorSource::Palette(PaletteRef::FgDefault), alpha: None },
        ColorRule { key: "sideBar.border", source: ColorSource::Palette(PaletteRef::BorderDefault), alpha: None },
        ColorRule { key: "sideBarTitle.foreground", source: ColorSource::Palette(PaletteRef::FgMuted), alpha: None },
        ColorRule { key: "sideBarSectionHeader.background", source: ColorSource::Fixed(SOFT_DARK_BG), alpha: None },
        ColorRule { key: "editorGroup.border", source: ColorSource::Palette(PaletteRef::BorderDefault), alpha: None },
        ColorRule { key: "editorGroupHeader.tabsBorder", source: ColorSource::Palette(PaletteRef::BorderDefault), alpha: None },
        ColorRule { key: "editorGroupHeader.tabsBackground", source: ColorSource::Fixed(SOFT_DARK_BG), alpha: None },
        ColorRule { key: "tab.border", source: ColorSource::Palette(PaletteRef::BorderDefault), alpha: None },
        ColorRule { key: "tab.activeBorderTop", source: ColorSource::Fixed(ACCENT), alpha: None },
        ColorRule { key: "tab.activeBackground", source: ColorSource::Palette(PaletteRef::CanvasDefault), alpha: None },
        ColorRule { key: "tab.activeForeground", source: ColorSource::Palette(PaletteRef::FgDefault), alpha: None },
        ColorRule { key: "tab.inactiveBackground", source: ColorSource::Fixed(SOFT_DARK_BG), alpha: None },
        ColorRule { key: "tab.inactiveForeground", source: ColorSource::Palette(PaletteRef::FgMuted), alpha: None },
        ColorRule { key: "tab.hoverBackground", source: ColorSource::Palette(PaletteRef::CanvasDefault), alpha: None },
        ColorRule { key: "editor.background", source: ColorSource::Palette(PaletteRef::CanvasDefault), alpha: None },
        ColorRule { key: "editor.foreground", source: ColorSource::Palette(PaletteRef::FgDefault), alpha: None },
        ColorRule { key: "editorCursor.foreground", source: ColorSource::Fixed(ACCENT), alpha: None },
        ColorRule { key: "editorLineNumber.foreground", source: ColorSource::Palette(PaletteRef::FgSubtle), alpha: None },
        ColorRule { key: "editorLineNumber.activeForeground", source: ColorSource::Palette(PaletteRef::FgDefault), alpha: None },
        ColorRule { key: "editorWidget.background", source: ColorSource::Palette(PaletteRef::CanvasOverlay), alpha: None },
        ColorRule { key: "editor.lineHighlightBackground", source: ColorSource::Palette(PaletteRef::CodemirrorActivelineBg), alpha: None },
        ColorRule { key: "editorWarning.foreground", source: ColorSource::Fixed(WARNING), alpha: None },
        ColorRule { key: "editorError.foreground", source: ColorSource::Fixed(ERROR), alpha: None },
        ColorRule { key: "editorInfo.foreground", source: ColorSource::Fixed(INFO), alpha: None },
        ColorRule { key: "problemsWarningIcon.foreground", source: ColorSource::Fixed(WARNING), alpha: None },
        ColorRule { key: "problemsErrorIcon.foreground", source: ColorSource::Fixed(ERROR), alpha: None },
        ColorRule { key: "problemsInfoIcon.foreground", source: ColorSource::Fixed(INFO), alpha: None },
        ColorRule { key: "editor.selectionBackground", source: ColorSource::Fixed(ACCENT), alpha: Some(ALPHA_TWENTY) },
        ColorRule { key: "editor.inactiveSelectionBackground", source: ColorSource::Fixed(ACCENT), alpha: Some(ALPHA_TEN) },
        ColorRule { key: "editor.selectionHighlightBackground", source: ColorSource::Palette(PaletteRef::SuccessFg), alpha: Some(ALPHA_QUARTER) },
        ColorRule { key: "editor.wordHighlightBackground", source: ColorSource::Palette(PaletteRef::NeutralSubtle), alpha: Some(ALPHA_HALF) },
        ColorRule { key: "editor.findMatchBackground", source: ColorSource::Palette(PaletteRef::AttentionEmphasis), alpha: None },
        ColorRule { key: "editor.findMatchHighlightBackground", source: ColorSource::Palette(PaletteRef::AttentionFg), alpha: Some(ALPHA_THIRTY) },
        ColorRule { key: "editorStickyScroll.background", source: ColorSource::Palette(PaletteRef::CanvasDefault), alpha: None },
        ColorRule { key: "editorStickyScrollHover.background", source: ColorSource::Palette(PaletteRef::CanvasSubtle), alpha: None },
        ColorRule { key: "scrollbarSlider.background", source: ColorSource::Palette(PaletteRef::NeutralEmphasis), alpha: Some(ALPHA_TWENTY) },
        ColorRule { key: "scrollbarSlider.hoverBackground", source: ColorSource::Palette(PaletteRef::NeutralEmphasis), alpha: Some(ALPHA_THIRTY) },
        ColorRule { key: "scrollbarSlider.activeBackground", source: ColorSource::Palette(PaletteRef::NeutralEmphasis), alpha: Some(ALPHA_FORTY) },
        ColorRule { key: "gitDecoration.addedResourceForeground", source: ColorSource::Fixed(DIFF_GREEN), alpha: None },
        ColorRule { key: "gitDecoration.untrackedResourceForeground", source: ColorSource::Fixed(DIFF_GREEN), alpha: None },
        ColorRule { key: "gitDecoration.modifiedResourceForeground", source: ColorSource::Fixed(BRIGHT_ACCENT_TEXT), alpha: None },
        ColorRule { key: "gitDecoration.deletedResourceForeground", source: ColorSource::Fixed(DIFF_RED), alpha: None },
        ColorRule { key: "gitDecoration.ignoredResourceForeground", source: ColorSource::Palette(PaletteRef::FgSubtle), alpha: None },
        ColorRule { key: "gitDecoration.conflictingResourceForeground", source: ColorSource::Palette(PaletteRef::SevereFg), alpha: None },
        ColorRule { key: "diffEditor.insertedTextBackground", source: ColorSource::Fixed(DIFF_GREEN), alpha: Some(ALPHA_FIFTEEN) },
        ColorRule { key: "diffEditor.removedTextBackground", source: ColorSource::Fixed(DIFF_RED), alpha: Some(ALPHA_FIFTEEN) },
        ColorRule { key: "editorGutter.addedBackground", source: ColorSource::Fixed(DIFF_GREEN), alpha: None },
        ColorRule { key: "editorGutter.modifiedBackground", source: ColorSource::Fixed(BRIGHT_ACCENT_TEXT), alpha: None },
        ColorRule { key: "editorGutter.deletedBackground", source: ColorSource::Fixed(DIFF_RED), alpha: None },
        ColorRule { key: "statusBar.background", source: ColorSource::Palette(PaletteRef::CanvasDefault), alpha: None },
        ColorRule { key: "statusBar.foreground", source: ColorSource::Fixed(SOFT_WHITE), alpha: None },
        ColorRule { key: "statusBar.border", source: ColorSource::Palette(PaletteRef::BorderDefault), alpha: None },
        ColorRule { key: "titleBar.activeForeground", source: ColorSource::Fixed(DIM_WHITE), alpha: None },
        ColorRule { key: "titleBar.activeBackground", source: ColorSource::Palette(PaletteRef::CanvasDefault), alpha: None },
        ColorRule { key: "panelTitle.activeBorder", source: ColorSource::Fixed(ACCENT), alpha: None },
        ColorRule { key: "notificationsInfoIcon.foreground", source: ColorSource::Fixed(BRIGHT_ACCENT_TEXT), alpha: None },
        ColorRule { key: "terminal.foreground", source: ColorSource::Palette(PaletteRef::FgDefault), alpha: None },
        ColorRule { key: "terminal.ansiBlack", source: ColorSource::Palette(PaletteRef::AnsiBlack), alpha: None },
        ColorRule { key: "terminal.ansiRed", source: ColorSource::Palette(PaletteRef::AnsiRed), alpha: None },
        ColorRule { key: "terminal.ansiGreen", source: ColorSource::Palette(PaletteRef::AnsiGreen), alpha: None },
        ColorRule { key: "terminal.ansiYellow", source: ColorSource::Palette(PaletteRef::AnsiYellow), alpha: None },
        ColorRule { key: "terminal.ansiBlue", source: ColorSource::Palette(PaletteRef::AnsiBlue), alpha: None },
        ColorRule { key: "terminal.ansiMagenta", source: ColorSource::Palette(PaletteRef::AnsiMagenta), alpha: None },
        ColorRule { key: "terminal.ansiCyan", source: ColorSource::Palette(PaletteRef::AnsiCyan), alpha: None },
        ColorRule { key: "terminal.ansiWhite", source: ColorSource::Palette(PaletteRef::AnsiWhite), alpha: None },
        ColorRule { key: "statusBar.debuggingBackground", source: ColorSource::Fixed(ACCENT), alpha: None },
        ColorRule { key: "statusBar.debuggingForeground", source: ColorSource::Fixed(SOFT_WHITE), alpha: None },
        ColorRule { key: "statusBarItem.remoteBackground", source: ColorSource::Fixed(ACCENT), alpha: None },
        ColorRule { key: "statusBarItem.remoteForeground", source: ColorSource::Fixed(SOFT_WHITE), alpha: None },
        ColorRule { key: "symbolIcon.classForeground", source: ColorSource::Fixed(TYPE_ICON), alpha: None },
        ColorRule { key: "symbolIcon.enumeratorForeground", source: ColorSource::Fixed(TYPE_ICON), alpha: None },
        ColorRule { key: "symbolIcon.enumeratorMemberForeground", source: ColorSource::Fixed(VARIANT_ICON), alpha: None },
        ColorRule { key: "symbolIcon.functionForeground", source: ColorSource::Fixed(FUNCTION_FOREGROUND), alpha: None },
        ColorRule { key: "symbolIcon.variableForeground", source: ColorSource::Fixed(VARIABLE_FOREGROUND), alpha: None },
    ]
}

/// The theme's colour table, in the order its entries are added.
pub fn theme_color_rules() -> (rules: Vec<ColorRule>)
    ensures
        rules@ == theme_rules(),
{
    vec![
        ColorRule { key: "focusBorder", source: ColorSource::Fixed(ACCENT), alpha: None },
        ColorRule { key: "foreground", source: ColorSource::Palette(PaletteRef::FgDefault), alpha: None },
        ColorRule { key: "descriptionForeground", source: ColorSource::Palette(PaletteRef::FgMuted), alpha: None },
        ColorRule { key: "errorForeground", source: ColorSource::Palette(PaletteRef::DangerFg), alpha: None },
        ColorRule { key: "widget.shadow", source: ColorSource::Fixed("rgba(1,4,9,0.85)"), alpha: None },
        ColorRule { key: "textLink.foreground", source: ColorSource::Fixed(BRIGHT_ACCENT_TEXT), alpha: None },
        ColorRule { key: "textLink.activeForeground", source: ColorSource::Fixed(BRIGHT_ACCENT_TEXT), alpha: None },
        ColorRule { key: "button.background", source: ColorSource::Fixed(ACCENT), alpha: None },
        ColorRule { key: "button.foreground", source: ColorSource::Palette(PaletteRef::BtnPrimaryText), alpha: None },
        ColorRule { key: "button.hoverBackground", source: ColorSource::Palette(PaletteRef::BtnPrimaryHoverBg), alpha: None },
        ColorRule { key: "badge.background", source: ColorSource::Fixed(ACCENT), alpha: None },
        ColorRule { key: "progressBar.background", source: ColorSource::Fixed(ACCENT), alpha: None },
        ColorRule { key: "input.background", source: ColorSource::Palette(PaletteRef::CanvasDefault), alpha: None },
        ColorRule { key: "input.border", source: ColorSource::Palette(PaletteRef::BorderDefault), alpha: None },
        ColorRule { key: "input.foreground", source: ColorSource::Palette(PaletteRef::FgDefault), alpha: None },
        ColorRule { key: "input.placeholderForeground", source: ColorSource::Palette(PaletteRef::FgSubtle), alpha: None },
        ColorRule { key: "dropdown.background", source: ColorSource::Palette(PaletteRef::CanvasOverlay), alpha: None },
        ColorRule { key: "dropdown.border", source: ColorSource::Palette(PaletteRef::BorderDefault), alpha: None },
        ColorRule { key: "dropdown.foreground", source: ColorSource::Palette(PaletteRef::FgDefault), alpha: None },
        ColorRule { key: "list.highlightForeground", source: ColorSource::Fixed(BRIGHT_ACCENT_TEXT), alpha: None },
        ColorRule { key: "list.activeSelectionForeground", source: ColorSource::Fixed(BRIGHT_ACCENT_TEXT), alpha: None },
        ColorRule { key: "list.hoverBackground", source: ColorSource::Palette(PaletteRef::NeutralSubtle), alpha: Some(ALPHA_HALF) },
        ColorRule { key: "list.activeSelectionBackground", source: ColorSource::Fixed(ACCENT), alpha: Some(ALPHA_TWENTY) },
        ColorRule { key: "list.inactiveSelectionBackground", source: ColorSource::Palette(PaletteRef::NeutralMuted), alpha: Some(ALPHA_HALF) },
        ColorRule { key: "list.dropBackground", source: ColorSource::Palette(PaletteRef::NeutralMuted), alpha: None },
        ColorRule { key: "activityBar.background", source: ColorSource::Palette(PaletteRef::CanvasDefault), alpha: None },
        ColorRule { key: "activityBar.foreground", source: ColorSource::Palette(PaletteRef::FgDefault), alpha: None },
        ColorRule { key: "activityBar.inactiveForeground", source: ColorSource::Palette(PaletteRef::FgMuted), alpha: None },
        ColorRule { key: "activityBar.border", source: ColorSource::Palette(PaletteRef::BorderDefault), alpha: None },
        ColorRule { key: "activityBar.activeBorder", source: ColorSource::Fixed(ACCENT), alpha: None },
        ColorRule { key: "activityBarBadge.background", source: ColorSource::Fixed(ACCENT), alpha: None },
        ColorRule { key: "sideBar.background", source: ColorSource::Fixed(SOFT_DARK_BG), alpha: None },
        ColorRule { key: "sideBar.foreground", source: ColorSource::Palette(PaletteRef::FgDefault), alpha: None },
        ColorRule { key: "sideBar.border", source: ColorSource::Palette(PaletteRef::BorderDefault), alpha: None },
        ColorRule { key: "sideBarTitle.foreground", source: ColorSource::Palette(PaletteRef::FgMuted), alpha: None },
        ColorRule { key: "sideBarSectionHeader.background", source: ColorSource::Fixed(SOFT_DARK_BG), alpha: None },
        ColorRule { key: "editorGroup.border", source: ColorSource::Palette(PaletteRef::BorderDefault), alpha: None },
        ColorRule { key: "editorGroupHeader.tabsBorder", source: ColorSource::Palette(PaletteRef::BorderDefault), alpha: None },
        ColorRule { key: "editorGroupHeader.tabsBackground", source: ColorSource::Fixed(SOFT_DARK_BG), alpha: None },
        ColorRule { key: "tab.border", source: ColorSource::Palette(PaletteRef::BorderDefault), alpha: None },
        ColorRule { key: "tab.activeBorderTop", source: ColorSource::Fixed(ACCENT), alpha: None },
        ColorRule { key: "tab.activeBackground", source: ColorSource::Palette(PaletteRef::CanvasDefault), alpha: None },
        ColorRule { key: "tab.activeForeground", source: ColorSource::Palette(PaletteRef::FgDefault), alpha: None },
        ColorRule { key: "tab.inactiveBackground", source: ColorSource::Fixed(SOFT_DARK_BG), alpha: None },
        ColorRule { key: "tab.inactiveForeground", source: ColorSource::Palette(PaletteRef::FgMuted), alpha: None },
        ColorRule { key: "tab.hoverBackground", source: ColorSource::Palette(PaletteRef::CanvasDefault), alpha: None },
        ColorRule { key: "editor.background", source: ColorSource::Palette(PaletteRef::CanvasDefault), alpha: None },
        ColorRule { key: "editor.foreground", source: ColorSource::Palette(PaletteRef::FgDefault), alpha: None },
        ColorRule { key: "editorCursor.foreground", source: ColorSource::Fixed(ACCENT), alpha: None },
        ColorRule { key: "editorLineNumber.foreground", source: ColorSource::Palette(PaletteRef::FgSubtle), alpha: None },
        ColorRule { key: "editorLineNumber.activeForeground", source: ColorSource::Palette(PaletteRef::FgDefault), alpha: None },
        ColorRule { key: "editorWidget.background", source: ColorSource::Palette(PaletteRef::CanvasOverlay), alpha: None },
        ColorRule { key: "editor.lineHighlightBackground", source: ColorSource::Palette(PaletteRef::CodemirrorActivelineBg), alpha: None },
        ColorRule { key: "editorWarning.foreground", source: ColorSource::Fixed(WARNING), alpha: None },
        ColorRule { key: "editorError.foreground", source: ColorSource::Fixed(ERROR), alpha: None },
        ColorRule { key: "editorInfo.foreground", source: ColorSource::Fixed(INFO), alpha: None },
        ColorRule { key: "problemsWarningIcon.foreground", source: ColorSource::Fixed(WARNING), alpha: None },
        ColorRule { key: "problemsErrorIcon.foreground", source: ColorSource::Fixed(ERROR), alpha: None },
        ColorRule { key: "problemsInfoIcon.foreground", source: ColorSource::Fixed(INFO), alpha: None },
        ColorRule { key: "editor.selectionBackground", source: ColorSource::Fixed(ACCENT), alpha: Some(ALPHA_TWENTY) },
        ColorRule { key: "editor.inactiveSelectionBackground", source: ColorSource::Fixed(ACCENT), alpha: Some(ALPHA_TEN) },
        ColorRule { key: "editor.selectionHighlightBackground", source: ColorSource::Palette(PaletteRef::SuccessFg), alpha: Some(ALPHA_QUARTER) },
        ColorRule { key: "editor.wordHighlightBackground", source: ColorSource::Palette(PaletteRef::NeutralSubtle), alpha: Some(ALPHA_HALF) },
        ColorRule { key: "editor.findMatchBackground", source: ColorSource::Palette(PaletteRef::AttentionEmphasis), alpha: None },
        ColorRule { key: "editor.findMatchHighlightBackground", source: ColorSource::Palette(PaletteRef::AttentionFg), alpha: Some(ALPHA_THIRTY) },
        ColorRule { key: "editorStickyScroll.background", source: ColorSource::Palette(PaletteRef::CanvasDefault), alpha: None },
        ColorRule { key: "editorStickyScrollHover.background", source: ColorSource::Palette(PaletteRef::CanvasSubtle), alpha: None },
        ColorRule { key: "scrollbarSlider.background", source: ColorSource::Palette(PaletteRef::NeutralEmphasis), alpha: Some(ALPHA_TWENTY) },
        ColorRule { key: "scrollbarSlider.hoverBackground", source: ColorSource::Palette(PaletteRef::NeutralEmphasis), alpha: Some(ALPHA_THIRTY) },
        ColorRule { key: "scrollbarSlider.activeBackground", source: ColorSource::Palette(PaletteRef::NeutralEmphasis), alpha: Some(ALPHA_FORTY) },
        ColorRule { key: "gitDecoration.addedResourceForeground", source: ColorSource::Fixed(DIFF_GREEN), alpha: None },
        ColorRule { key: "gitDecoration.untrackedResourceForeground", source: ColorSource::Fixed(DIFF_GREEN), alpha: None },
        ColorRule { key: "gitDecoration.modifiedResourceForeground", source: ColorSource::Fixed(BRIGHT_ACCENT_TEXT), alpha: None },
        ColorRule { key: "gitDecoration.deletedResourceForeground", source: ColorSource::Fixed(DIFF_RED), alpha: None },
        ColorRule { key: "gitDecoration.ignoredResourceForeground", source: ColorSource::Palette(PaletteRef::FgSubtle), alpha: None },
        ColorRule { key: "gitDecoration.conflictingResourceForeground", source: ColorSource::Palette(PaletteRef::SevereFg), alpha: None },
        ColorRule { key: "diffEditor.insertedTextBackground", source: ColorSource::Fixed(DIFF_GREEN), alpha: Some(ALPHA_FIFTEEN) },
        ColorRule { key: "diffEditor.removedTextBackground", source: ColorSource::Fixed(DIFF_RED), alpha: Some(ALPHA_FIFTEEN) },
        ColorRule { key: "editorGutter.addedBackground", source: ColorSource::Fixed(DIFF_GREEN), alpha: None },
        ColorRule { key: "editorGutter.modifiedBackground", source: ColorSource::Fixed(BRIGHT_ACCENT_TEXT), alpha: None },
        ColorRule { key: "editorGutter.deletedBackground", source: ColorSource::Fixed(DIFF_RED), alpha: None },
        ColorRule { key: "statusBar.background", source: ColorSource::Palette(PaletteRef::CanvasDefault), alpha: None },
        ColorRule { key: "statusBar.foreground", source: ColorSource::Fixed(SOFT_WHITE), alpha: None },
        ColorRule { key: "statusBar.border", source: ColorSource::Palette(PaletteRef::BorderDefault), alpha: None },
        ColorRule { key: "titleBar.activeForeground", source: ColorSource::Fixed(DIM_WHITE), alpha: None },
        ColorRule { key: "titleBar.activeBackground", source: ColorSource::Palette(PaletteRef::CanvasDefault), alpha: None },
        ColorRule { key: "panelTitle.activeBorder", source: ColorSource::Fixed(ACCENT), alpha: None },
        ColorRule { key: "notificationsInfoIcon.foreground", source: ColorSource::Fixed(BRIGHT_ACCENT_TEXT), alpha: None },
        ColorRule { key: "terminal.foreground", source: ColorSource::Palette(PaletteRef::FgDefault), alpha: None },
        ColorRule { key: "terminal.ansiBlack", source: ColorSource::Palette(PaletteRef::AnsiBlack), alpha: None },
        ColorRule { key: "terminal.ansiRed", source: ColorSource::Palette(PaletteRef::AnsiRed), alpha: None },
        ColorRule { key: "terminal.ansiGreen", source: ColorSource::Palette(PaletteRef::AnsiGreen), alpha: None },
        ColorRule { key: "terminal.ansiYellow", source: ColorSource::Palette(PaletteRef::AnsiYellow), alpha: None },
        ColorRule { key: "terminal.ansiBlue", source: ColorSource::Palette(PaletteRef::AnsiBlue), alpha: None },
        ColorRule { key: "terminal.ansiMagenta", source: ColorSource::Palette(PaletteRef::AnsiMagenta), alpha: None },
        ColorRule { key: "terminal.ansiCyan", source: ColorSource::Palette(PaletteRef::AnsiCyan), alpha: None },
        ColorRule { key: "terminal.ansiWhite", source: ColorSource::Palette(PaletteRef::AnsiWhite), alpha: None },
        ColorRule { key: "statusBar.debuggingBackground", source: ColorSource::Fixed(ACCENT), alpha: None },
        ColorRule { key: "statusBar.debuggingForeground", source: ColorSource::Fixed(SOFT_WHITE), alpha: None },
        ColorRule { key: "statusBarItem.remoteBackground", source: ColorSource::Fixed(ACCENT), alpha: None },
        ColorRule { key: "statusBarItem.remoteForeground", source: ColorSource::Fixed(SOFT_WHITE), alpha: None },
        ColorRule { key: "symbolIcon.classForeground", source: ColorSource::Fixed(TYPE_ICON), alpha: None },
        ColorRule { key: "symbolIcon.enumeratorForeground", source: ColorSource::Fixed(TYPE_ICON), alpha: None },
        ColorRule { key: "symbolIcon.enumeratorMemberForeground", source: ColorSource::Fixed(VARIANT_ICON), alpha: None },
        ColorRule { key: "symbolIcon.functionForeground", source: ColorSource::Fixed(FUNCTION_FOREGROUND), alpha: None },
        ColorRule { key: "symbolIcon.variableForeground", source: ColorSource::Fixed(VARIABLE_FOREGROUND), alpha: None },
    ]
}

/// The colour a source stands for, given the palette.
pub fn resolve_source<'a>(p: &'a Primitives, s: ColorSource) -> (c: &'a str)
    ensures
        c@ == source_color(*p, s),
{
    match s {
        ColorSource::Fixed(c) => c,
        ColorSource::Palette(r) => palette_color(p, r),
    }
}

/// Adds the entry of each rule in turn: `add` for a rule without alpha,
/// `add_alpha` for one with.
pub fn apply_color_rules(colors: &mut ColorMap, p: &Primitives, rules: &Vec<ColorRule>)
    ensures
        exists|vals: Seq<Seq<char>>|
            rule_values_ok(*p, rules@, vals) && final(colors)@ == insert_all(
                old(colors)@,
                rule_entries(rules@, vals),
            ),
{
    let ghost start = colors@;
    let ghost mut vals: Seq<Seq<char>> = Seq::empty();
    let n = rules.len();
    let mut i: usize = 0;
    while i < n
        invariant
            n == rules@.len(),
            i <= n,
            vals.len() == i,
            forall|k: int| 0 <= k < i ==> rule_value_ok(*p, #[trigger] rules@[k], vals[k]),
            colors@ == insert_all(start, rule_entries(rules@.take(i as int), vals)),
        decreases n - i,
    {
        let rule = rules[i];
        let value = resolve_source(p, rule.source);
        let ghost before = colors@;
        let ghost mut v: Seq<char> = Seq::empty();
        match rule.alpha {
            Some(a) => {
                add_alpha(colors, rule.key, value, a);
                proof {
                    v = choose|v: Seq<char>|
                        is_alpha_form_of(value@, a, v) && colors@ == before.insert(rule.key@, v);
                }
            },
            None => {
                self::add(colors, rule.key, value);
                proof {
                    v = choose|v: Seq<char>|
                        is_normal_form_of(value@, v) && colors@ == before.insert(rule.key@, v);
                }
            },
        }
        proof {
            assert(rule_value_ok(*p, rule, v));
            assert(colors@ == before.insert(rule.key@, v));
            let old_vals = vals;
            vals = vals.push(v);
            assert(rule_entries(rules@.take(i + 1), vals).drop_last() =~= rule_entries(
                rules@.take(i as int),
                old_vals,
            ));
            assert(rules@.take(i + 1)[i as int] == rule);
            assert forall|k: int| 0 <= k < i + 1 implies rule_value_ok(
                *p,
                #[trigger] rules@[k],
                vals[k],
            ) by {
                if k < i {
                    assert(vals[k] == old_vals[k]);
                }
            }
        }
        i += 1;
    }
    assert(rules@.take(n as int) =~= rules@);
    assert(rule_values_ok(*p, rules@, vals));
}

/// The token colours of the base theme that this theme restyles.
pub struct BaseThemeTokens {
    pub token_colors: Vec<TokenColor>,
    pub semantic_token_colors: Option<Vec<(String, String)>>,
}

/// The finished theme.
pub struct Theme {
    pub name: String,
    pub colors: ColorMap,
    pub semantic_highlighting: bool,
    pub semantic_token_colors: Option<ColorMap>,
    pub token_colors: Vec<TokenColor>,
}

/// The semantic token colours that the base theme brings, as entries.
pub open spec fn base_semantic_entries(base: BaseThemeTokens) -> Seq<(Seq<char>, Seq<char>)> {
    match base.semantic_token_colors {
        Some(v) => v@.map_values(|e: (String, String)| (e.0@, e.1@)),
        None => Seq::<(Seq<char>, Seq<char>)>::empty(),
    }
}

/// Builds the theme from the palette, the colour rules (the theme's own are
/// `theme_color_rules()`) and the base theme's tokens: the colour table from
/// the rules, the base theme's semantic colours, and its token colours
/// restyled.
pub fn build_theme(p: &Primitives, rules: &Vec<ColorRule>, base: BaseThemeTokens) -> (t: Theme)
    requires
        forall|i: int|
            0 <= i < base.token_colors@.len() ==> can_restyle(#[trigger] base.token_colors@[i]@),
    ensures
        t.name@ == THEME_NAME@,
        exists|vals: Seq<Seq<char>>|
            rule_values_ok(*p, rules@, vals) && t.colors@ == insert_all(
                Map::empty(),
                rule_entries(rules@, vals),
            ),
        t.semantic_highlighting,
        t.semantic_token_colors matches Some(m) && m@ == insert_all(
            Map::empty(),
            base_semantic_entries(base),
        ),
        t.token_colors@.len() == base.token_colors@.len(),
        forall|i: int|
            0 <= i < base.token_colors@.len() ==> (#[trigger] t.token_colors@[i])@ == restyled(
                base.token_colors@[i]@,
            ),
{
    let mut colors = ColorMap::new();
    apply_color_rules(&mut colors, p, rules);
    let mut stc = ColorMap::new();
    match base.semantic_token_colors {
        Some(v) => stc.extend(v),
        None => {},
    }
    let token_colors = restyle_tokens(base.token_colors);
    Theme {
        name: THEME_NAME.to_owned(),
        colors,
        semantic_highlighting: true,
        semantic_token_colors: Some(stc),
        token_colors,
    }
}

} // verus!
