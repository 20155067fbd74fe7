//! What the theme's colour table holds, key by key.

use vstd::prelude::*;
use crate::color::{is_alpha_form_of, is_normal_form_of};
use crate::color_map::{insert_all, lemma_insert_all_last_wins};
use crate::palette::Primitives;
use crate::theme::{rule_entries, rule_values_ok, theme_rules};

verus! {

/// The entry at `i` decides its key's value when no later entry has the key.
proof fn lemma_last_entry_for_key(s: Seq<(Seq<char>, Seq<char>)>, i: int)
    requires
        0 <= i < s.len(),
        forall|j: int| i < j < s.len() ==> (#[trigger] s[j]).0 != s[i].0,
    ensures
        insert_all(Map::empty(), s).contains_key(s[i].0),
        insert_all(Map::empty(), s)[s[i].0] == s[i].1,
{
    lemma_insert_all_last_wins(Map::empty(), s, s[i].0);
}

/// The keys of the theme's rules, in order.
pub open spec fn theme_keys() -> Seq<Seq<char>> {
    theme_rules().map_values(|r: crate::theme::ColorRule| r.key@)
}

proof fn lemma_index_cases(j: int)
    requires
        0 <= j < 106,
    ensures
        j == 0 || j == 1 || j == 2 || j == 3 || j == 4 || j == 5 || j == 6 || j == 7
        || j == 8 || j == 9 || j == 10 || j == 11 || j == 12 || j == 13 || j == 14 || j == 15
        || j == 16 || j == 17 || j == 18 || j == 19 || j == 20 || j == 21 || j == 22 || j == 23
        || j == 24 || j == 25 || j == 26 || j == 27 || j == 28 || j == 29 || j == 30 || j == 31
        || j == 32 || j == 33 || j == 34 || j == 35 || j == 36 || j == 37 || j == 38 || j == 39
        || j == 40 || j == 41 || j == 42 || j == 43 || j == 44 || j == 45 || j == 46 || j == 47
        || j == 48 || j == 49 || j == 50 || j == 51 || j == 52 || j == 53 || j == 54 || j == 55
        || j == 56 || j == 57 || j == 58 || j == 59 || j == 60 || j == 61 || j == 62 || j == 63
        || j == 64 || j == 65 || j == 66 || j == 67 || j == 68 || j == 69 || j == 70 || j == 71
        || j == 72 || j == 73 || j == 74 || j == 75 || j == 76 || j == 77 || j == 78 || j == 79
        || j == 80 || j == 81 || j == 82 || j == 83 || j == 84 || j == 85 || j == 86 || j == 87
        || j == 88 || j == 89 || j == 90 || j == 91 || j == 92 || j == 93 || j == 94 || j == 95
        || j == 96 || j == 97 || j == 98 || j == 99 || j == 100 || j == 101 || j == 102 || j == 103
        || j == 104 || j == 105,
{
}

/// No two of the theme's rules share a key.
#[verifier::spinoff_prover]
#[verifier::rlimit(100)]
pub proof fn lemma_theme_keys_distinct(i: int)
    requires
        0 <= i < 106,
    ensures
        forall|j: int| 0 <= j < 106 && j != i ==> theme_keys()[j] != theme_keys()[i],
{
    reveal_strlit("focusBorder");
    reveal_strlit("foreground");
    reveal_strlit("descriptionForeground");
    reveal_strlit("errorForeground");
    reveal_strlit("widget.shadow");
    reveal_strlit("textLink.foreground");
    reveal_strlit("textLink.activeForeground");
    reveal_strlit("button.background");
    reveal_strlit("button.foreground");
    reveal_strlit("button.hoverBackground");
    reveal_strlit("badge.background");
    reveal_strlit("progressBar.background");
    reveal_strlit("input.background");
    reveal_strlit("input.border");
    reveal_strlit("input.foreground");
    reveal_strlit("input.placeholderForeground");
    reveal_strlit("dropdown.background");
    reveal_strlit("dropdown.border");
    reveal_strlit("dropdown.foreground");
    reveal_strlit("list.highlightForeground");
    reveal_strlit("list.activeSelectionForeground");
    reveal_strlit("list.hoverBackground");
    reveal_strlit("list.activeSelectionBackground");
    reveal_strlit("list.inactiveSelectionBackground");
    reveal_strlit("list.dropBackground");
    reveal_strlit("activityBar.background");
    reveal_strlit("activityBar.foreground");
    reveal_strlit("activityBar.inactiveForeground");
    reveal_strlit("activityBar.border");
    reveal_strlit("activityBar.activeBorder");
    reveal_strlit("activityBarBadge.background");
    reveal_strlit("sideBar.background");
    reveal_strlit("sideBar.foreground");
    reveal_strlit("sideBar.border");
    reveal_strlit("sideBarTitle.foreground");
    reveal_strlit("sideBarSectionHeader.background");
    reveal_strlit("editorGroup.border");
    reveal_strlit("editorGroupHeader.tabsBorder");
    reveal_strlit("editorGroupHeader.tabsBackground");
    reveal_strlit("tab.border");
    reveal_strlit("tab.activeBorderTop");
    reveal_strlit("tab.activeBackground");
    reveal_strlit("tab.activeForeground");
    reveal_strlit("tab.inactiveBackground");
    reveal_strlit("tab.inactiveForeground");
    reveal_strlit("tab.hoverBackground");
    reveal_strlit("editor.background");
    reveal_strlit("editor.foreground");
    reveal_strlit("editorCursor.foreground");
    reveal_strlit("editorLineNumber.foreground");
    reveal_strlit("editorLineNumber.activeForeground");
    reveal_strlit("editorWidget.background");
    reveal_strlit("editor.lineHighlightBackground");
    reveal_strlit("editorWarning.foreground");
    reveal_strlit("editorError.foreground");
    reveal_strlit("editorInfo.foreground");
    reveal_strlit("problemsWarningIcon.foreground");
    reveal_strlit("problemsErrorIcon.foreground");
    reveal_strlit("problemsInfoIcon.foreground");
    reveal_strlit("editor.selectionBackground");
    reveal_strlit("editor.inactiveSelectionBackground");
    reveal_strlit("editor.selectionHighlightBackground");
    reveal_strlit("editor.wordHighlightBackground");
    reveal_strlit("editor.findMatchBackground");
    reveal_strlit("editor.findMatchHighlightBackground");
    reveal_strlit("editorStickyScroll.background");
    reveal_strlit("editorStickyScrollHover.background");
    reveal_strlit("scrollbarSlider.background");
    reveal_strlit("scrollbarSlider.hoverBackground");
    reveal_strlit("scrollbarSlider.activeBackground");
    reveal_strlit("gitDecoration.addedResourceForeground");
    reveal_strlit("gitDecoration.untrackedResourceForeground");
    reveal_strlit("gitDecoration.modifiedResourceForeground");
    reveal_strlit("gitDecoration.deletedResourceForeground");
    reveal_strlit("gitDecoration.ignoredResourceForeground");
    reveal_strlit("gitDecoration.conflictingResourceForeground");
    reveal_strlit("diffEditor.insertedTextBackground");
    reveal_strlit("diffEditor.removedTextBackground");
    reveal_strlit("editorGutter.addedBackground");
    reveal_strlit("editorGutter.modifiedBackground");
    reveal_strlit("editorGutter.deletedBackground");
    reveal_strlit("statusBar.background");
    reveal_strlit("statusBar.foreground");
    reveal_strlit("statusBar.border");
    reveal_strlit("titleBar.activeForeground");
    reveal_strlit("titleBar.activeBackground");
    reveal_strlit("panelTitle.activeBorder");
    reveal_strlit("notificationsInfoIcon.foreground");
    reveal_strlit("terminal.foreground");
    reveal_strlit("terminal.ansiBlack");
    reveal_strlit("terminal.ansiRed");
    reveal_strlit("terminal.ansiGreen");
    reveal_strlit("terminal.ansiYellow");
    reveal_strlit("terminal.ansiBlue");
    reveal_strlit("terminal.ansiMagenta");
    reveal_strlit("terminal.ansiCyan");
    reveal_strlit("terminal.ansiWhite");
    reveal_strlit("statusBar.debuggingBackground");
    reveal_strlit("statusBar.debuggingForeground");
    reveal_strlit("statusBarItem.remoteBackground");
    reveal_strlit("statusBarItem.remoteForeground");
    reveal_strlit("symbolIcon.classForeground");
    reveal_strlit("symbolIcon.enumeratorForeground");
    reveal_strlit("symbolIcon.enumeratorMemberForeground");
    reveal_strlit("symbolIcon.functionForeground");
    reveal_strlit("symbolIcon.variableForeground");
    let keys = theme_keys();
    assert(keys[0] == "focusBorder"@ && "focusBorder"@.len() == 11);
    assert(keys[1] == "foreground"@ && "foreground"@.len() == 10);
    assert(keys[2] == "descriptionForeground"@ && "descriptionForeground"@.len() == 21);
    assert(keys[3] == "errorForeground"@ && "errorForeground"@.len() == 15);
    assert(keys[4] == "widget.shadow"@ && "widget.shadow"@.len() == 13);
    assert(keys[5] == "textLink.foreground"@ && "textLink.foreground"@.len() == 19);
    assert(keys[6] == "textLink.activeForeground"@ && "textLink.activeForeground"@.len() == 25);
    assert(keys[7] == "button.background"@ && "button.background"@.len() == 17);
    assert(keys[8] == "button.foreground"@ && "button.foreground"@.len() == 17);
    assert(keys[9] == "button.hoverBackground"@ && "button.hoverBackground"@.len() == 22);
    assert(keys[10] == "badge.background"@ && "badge.background"@.len() == 16);
    assert(keys[11] == "progressBar.background"@ && "progressBar.background"@.len() == 22);
    assert(keys[12] == "input.background"@ && "input.background"@.len() == 16);
    assert(keys[13] == "input.border"@ && "input.border"@.len() == 12);
    assert(keys[14] == "input.foreground"@ && "input.foreground"@.len() == 16);
    assert(keys[15] == "input.placeholderForeground"@ && "input.placeholderForeground"@.len() == 27);
    assert(keys[16] == "dropdown.background"@ && "dropdown.background"@.len() == 19);
    assert(keys[17] == "dropdown.border"@ && "dropdown.border"@.len() == 15);
    assert(keys[18] == "dropdown.foreground"@ && "dropdown.foreground"@.len() == 19);
    assert(keys[19] == "list.highlightForeground"@ && "list.highlightForeground"@.len() == 24);
    assert(keys[20] == "list.activeSelectionForeground"@ && "list.activeSelectionForeground"@.len() == 30);
    assert(keys[21] == "list.hoverBackground"@ && "list.hoverBackground"@.len() == 20);
    assert(keys[22] == "list.activeSelectionBackground"@ && "list.activeSelectionBackground"@.len() == 30);
    assert(keys[23] == "list.inactiveSelectionBackground"@ && "list.inactiveSelectionBackground"@.len() == 32);
    assert(keys[24] == "list.dropBackground"@ && "list.dropBackground"@.len() == 19);
    assert(keys[25] == "activityBar.background"@ && "activityBar.background"@.len() == 22);
    assert(keys[26] == "activityBar.foreground"@ && "activityBar.foreground"@.len() == 22);
    assert(keys[27] == "activityBar.inactiveForeground"@ && "activityBar.inactiveForeground"@.len() == 30);
    assert(keys[28] == "activityBar.border"@ && "activityBar.border"@.len() == 18);
    assert(keys[29] == "activityBar.activeBorder"@ && "activityBar.activeBorder"@.len() == 24);
    assert(keys[30] == "activityBarBadge.background"@ && "activityBarBadge.background"@.len() == 27);
    assert(keys[31] == "sideBar.background"@ && "sideBar.background"@.len() == 18);
    assert(keys[32] == "sideBar.foreground"@ && "sideBar.foreground"@.len() == 18);
    assert(keys[33] == "sideBar.border"@ && "sideBar.border"@.len() == 14);
    assert(keys[34] == "sideBarTitle.foreground"@ && "sideBarTitle.foreground"@.len() == 23);
    assert(keys[35] == "sideBarSectionHeader.background"@ && "sideBarSectionHeader.background"@.len() == 31);
    assert(keys[36] == "editorGroup.border"@ && "editorGroup.border"@.len() == 18);
    assert(keys[37] == "editorGroupHeader.tabsBorder"@ && "editorGroupHeader.tabsBorder"@.len() == 28);
    assert(keys[38] == "editorGroupHeader.tabsBackground"@ && "editorGroupHeader.tabsBackground"@.len() == 32);
    assert(keys[39] == "tab.border"@ && "tab.border"@.len() == 10);
    assert(keys[40] == "tab.activeBorderTop"@ && "tab.activeBorderTop"@.len() == 19);
    assert(keys[41] == "tab.activeBackground"@ && "tab.activeBackground"@.len() == 20);
    assert(keys[42] == "tab.activeForeground"@ && "tab.activeForeground"@.len() == 20);
    assert(keys[43] == "tab.inactiveBackground"@ && "tab.inactiveBackground"@.len() == 22);
    assert(keys[44] == "tab.inactiveForeground"@ && "tab.inactiveForeground"@.len() == 22);
    assert(keys[45] == "tab.hoverBackground"@ && "tab.hoverBackground"@.len() == 19);
    assert(keys[46] == "editor.background"@ && "editor.background"@.len() == 17);
    assert(keys[47] == "editor.foreground"@ && "editor.foreground"@.len() == 17);
    assert(keys[48] == "editorCursor.foreground"@ && "editorCursor.foreground"@.len() == 23);
    assert(keys[49] == "editorLineNumber.foreground"@ && "editorLineNumber.foreground"@.len() == 27);
    assert(keys[50] == "editorLineNumber.activeForeground"@ && "editorLineNumber.activeForeground"@.len() == 33);
    assert(keys[51] == "editorWidget.background"@ && "editorWidget.background"@.len() == 23);
    assert(keys[52] == "editor.lineHighlightBackground"@ && "editor.lineHighlightBackground"@.len() == 30);
    assert(keys[53] == "editorWarning.foreground"@ && "editorWarning.foreground"@.len() == 24);
    assert(keys[54] == "editorError.foreground"@ && "editorError.foreground"@.len() == 22);
    assert(keys[55] == "editorInfo.foreground"@ && "editorInfo.foreground"@.len() == 21);
    assert(keys[56] == "problemsWarningIcon.foreground"@ && "problemsWarningIcon.foreground"@.len() == 30);
    assert(keys[57] == "problemsErrorIcon.foreground"@ && "problemsErrorIcon.foreground"@.len() == 28);
    assert(keys[58] == "problemsInfoIcon.foreground"@ && "problemsInfoIcon.foreground"@.len() == 27);
    assert(keys[59] == "editor.selectionBackground"@ && "editor.selectionBackground"@.len() == 26);
    assert(keys[60] == "editor.inactiveSelectionBackground"@ && "editor.inactiveSelectionBackground"@.len() == 34);
    assert(keys[61] == "editor.selectionHighlightBackground"@ && "editor.selectionHighlightBackground"@.len() == 35);
    assert(keys[62] == "editor.wordHighlightBackground"@ && "editor.wordHighlightBackground"@.len() == 30);
    assert(keys[63] == "editor.findMatchBackground"@ && "editor.findMatchBackground"@.len() == 26);
    assert(keys[64] == "editor.findMatchHighlightBackground"@ && "editor.findMatchHighlightBackground"@.len() == 35);
    assert(keys[65] == "editorStickyScroll.background"@ && "editorStickyScroll.background"@.len() == 29);
    assert(keys[66] == "editorStickyScrollHover.background"@ && "editorStickyScrollHover.background"@.len() == 34);
    assert(keys[67] == "scrollbarSlider.background"@ && "scrollbarSlider.background"@.len() == 26);
    assert(keys[68] == "scrollbarSlider.hoverBackground"@ && "scrollbarSlider.hoverBackground"@.len() == 31);
    assert(keys[69] == "scrollbarSlider.activeBackground"@ && "scrollbarSlider.activeBackground"@.len() == 32);
    assert(keys[70] == "gitDecoration.addedResourceForeground"@ && "gitDecoration.addedResourceForeground"@.len() == 37);
    assert(keys[71] == "gitDecoration.untrackedResourceForeground"@ && "gitDecoration.untrackedResourceForeground"@.len() == 41);
    assert(keys[72] == "gitDecoration.modifiedResourceForeground"@ && "gitDecoration.modifiedResourceForeground"@.len() == 40);
    assert(keys[73] == "gitDecoration.deletedResourceForeground"@ && "gitDecoration.deletedResourceForeground"@.len() == 39);
    assert(keys[74] == "gitDecoration.ignoredResourceForeground"@ && "gitDecoration.ignoredResourceForeground"@.len() == 39);
    assert(keys[75] == "gitDecoration.conflictingResourceForeground"@ && "gitDecoration.conflictingResourceForeground"@.len() == 43);
    assert(keys[76] == "diffEditor.insertedTextBackground"@ && "diffEditor.insertedTextBackground"@.len() == 33);
    assert(keys[77] == "diffEditor.removedTextBackground"@ && "diffEditor.removedTextBackground"@.len() == 32);
    assert(keys[78] == "editorGutter.addedBackground"@ && "editorGutter.addedBackground"@.len() == 28);
    assert(keys[79] == "editorGutter.modifiedBackground"@ && "editorGutter.modifiedBackground"@.len() == 31);
    assert(keys[80] == "editorGutter.deletedBackground"@ && "editorGutter.deletedBackground"@.len() == 30);
    assert(keys[81] == "statusBar.background"@ && "statusBar.background"@.len() == 20);
    assert(keys[82] == "statusBar.foreground"@ && "statusBar.foreground"@.len() == 20);
    assert(keys[83] == "statusBar.border"@ && "statusBar.border"@.len() == 16);
    assert(keys[84] == "titleBar.activeForeground"@ && "titleBar.activeForeground"@.len() == 25);
    assert(keys[85] == "titleBar.activeBackground"@ && "titleBar.activeBackground"@.len() == 25);
    assert(keys[86] == "panelTitle.activeBorder"@ && "panelTitle.activeBorder"@.len() == 23);
    assert(keys[87] == "notificationsInfoIcon.foreground"@ && "notificationsInfoIcon.foreground"@.len() == 32);
    assert(keys[88] == "terminal.foreground"@ && "terminal.foreground"@.len() == 19);
    assert(keys[89] == "terminal.ansiBlack"@ && "terminal.ansiBlack"@.len() == 18);
    assert(keys[90] == "terminal.ansiRed"@ && "terminal.ansiRed"@.len() == 16);
    assert(keys[91] == "terminal.ansiGreen"@ && "terminal.ansiGreen"@.len() == 18);
    assert(keys[92] == "terminal.ansiYellow"@ && "terminal.ansiYellow"@.len() == 19);
    assert(keys[93] == "terminal.ansiBlue"@ && "terminal.ansiBlue"@.len() == 17);
    assert(keys[94] == "terminal.ansiMagenta"@ && "terminal.ansiMagenta"@.len() == 20);
    assert(keys[95] == "terminal.ansiCyan"@ && "terminal.ansiCyan"@.len() == 17);
    assert(keys[96] == "terminal.ansiWhite"@ && "terminal.ansiWhite"@.len() == 18);
    assert(keys[97] == "statusBar.debuggingBackground"@ && "statusBar.debuggingBackground"@.len() == 29);
    assert(keys[98] == "statusBar.debuggingForeground"@ && "statusBar.debuggingForeground"@.len() == 29);
    assert(keys[99] == "statusBarItem.remoteBackground"@ && "statusBarItem.remoteBackground"@.len() == 30);
    assert(keys[100] == "statusBarItem.remoteForeground"@ && "statusBarItem.remoteForeground"@.len() == 30);
    assert(keys[101] == "symbolIcon.classForeground"@ && "symbolIcon.classForeground"@.len() == 26);
    assert(keys[102] == "symbolIcon.enumeratorForeground"@ && "symbolIcon.enumeratorForeground"@.len() == 31);
    assert(keys[103] == "symbolIcon.enumeratorMemberForeground"@ && "symbolIcon.enumeratorMemberForeground"@.len() == 37);
    assert(keys[104] == "symbolIcon.functionForeground"@ && "symbolIcon.functionForeground"@.len() == 29);
    assert(keys[105] == "symbolIcon.variableForeground"@ && "symbolIcon.variableForeground"@.len() == 29);
    assert("foreground"@[0] == 'f');
    assert("descriptionForeground"@[0] == 'd');
    assert("errorForeground"@[0] == 'e');
    assert("textLink.foreground"@[0] == 't' && "textLink.foreground"@[1] == 'e' && "textLink.foreground"@[2] == 'x');
    assert("textLink.activeForeground"@[1] == 'e');
    assert("button.background"@[0] == 'b' && "button.background"@[7] == 'b');
    assert("button.foreground"@[0] == 'b' && "button.foreground"@[7] == 'f');
    assert("button.hoverBackground"@[0] == 'b');
    assert("badge.background"@[0] == 'b');
    assert("progressBar.background"@[0] == 'p');
    assert("input.background"@[0] == 'i' && "input.background"@[6] == 'b');
    assert("input.foreground"@[0] == 'i' && "input.foreground"@[6] == 'f');
    assert("input.placeholderForeground"@[0] == 'i');
    assert("dropdown.background"@[0] == 'd' && "dropdown.background"@[9] == 'b');
    assert("dropdown.border"@[0] == 'd');
    assert("dropdown.foreground"@[0] == 'd' && "dropdown.foreground"@[9] == 'f');
    assert("list.highlightForeground"@[0] == 'l');
    assert("list.activeSelectionForeground"@[0] == 'l' && "list.activeSelectionForeground"@[20] == 'F');
    assert("list.hoverBackground"@[0] == 'l');
    assert("list.activeSelectionBackground"@[0] == 'l' && "list.activeSelectionBackground"@[20] == 'B');
    assert("list.inactiveSelectionBackground"@[0] == 'l');
    assert("list.dropBackground"@[0] == 'l');
    assert("activityBar.background"@[0] == 'a' && "activityBar.background"@[12] == 'b');
    assert("activityBar.foreground"@[0] == 'a' && "activityBar.foreground"@[12] == 'f');
    assert("activityBar.inactiveForeground"@[0] == 'a');
    assert("activityBar.border"@[0] == 'a');
    assert("activityBar.activeBorder"@[0] == 'a');
    assert("activityBarBadge.background"@[0] == 'a');
    assert("sideBar.background"@[0] == 's' && "sideBar.background"@[8] == 'b');
    assert("sideBar.foreground"@[0] == 's' && "sideBar.foreground"@[8] == 'f');
    assert("sideBarTitle.foreground"@[0] == 's');
    assert("sideBarSectionHeader.background"@[0] == 's' && "sideBarSectionHeader.background"@[1] == 'i');
    assert("editorGroup.border"@[0] == 'e');
    assert("editorGroupHeader.tabsBorder"@[0] == 'e' && "editorGroupHeader.tabsBorder"@[7] == 'r');
    assert("editorGroupHeader.tabsBackground"@[0] == 'e');
    assert("tab.border"@[0] == 't');
    assert("tab.activeBorderTop"@[0] == 't' && "tab.activeBorderTop"@[1] == 'a' && "tab.activeBorderTop"@[4] == 'a');
    assert("tab.activeBackground"@[0] == 't' && "tab.activeBackground"@[1] == 'a' && "tab.activeBackground"@[10] == 'B');
    assert("tab.activeForeground"@[0] == 't' && "tab.activeForeground"@[1] == 'a' && "tab.activeForeground"@[10] == 'F');
    assert("tab.inactiveBackground"@[0] == 't' && "tab.inactiveBackground"@[12] == 'B');
    assert("tab.inactiveForeground"@[0] == 't' && "tab.inactiveForeground"@[12] == 'F');
    assert("tab.hoverBackground"@[0] == 't' && "tab.hoverBackground"@[1] == 'a' && "tab.hoverBackground"@[4] == 'h');
    assert("editor.background"@[0] == 'e' && "editor.background"@[7] == 'b');
    assert("editor.foreground"@[0] == 'e' && "editor.foreground"@[7] == 'f');
    assert("editorCursor.foreground"@[0] == 'e' && "editorCursor.foreground"@[6] == 'C');
    assert("editorLineNumber.foreground"@[0] == 'e');
    assert("editorLineNumber.activeForeground"@[0] == 'e');
    assert("editorWidget.background"@[0] == 'e' && "editorWidget.background"@[6] == 'W');
    assert("editor.lineHighlightBackground"@[0] == 'e' && "editor.lineHighlightBackground"@[6] == '.' && "editor.lineHighlightBackground"@[7] == 'l');
    assert("editorWarning.foreground"@[0] == 'e');
    assert("editorError.foreground"@[0] == 'e');
    assert("editorInfo.foreground"@[0] == 'e');
    assert("problemsWarningIcon.foreground"@[0] == 'p');
    assert("problemsErrorIcon.foreground"@[0] == 'p');
    assert("problemsInfoIcon.foreground"@[0] == 'p');
    assert("editor.selectionBackground"@[0] == 'e' && "editor.selectionBackground"@[7] == 's');
    assert("editor.inactiveSelectionBackground"@[6] == '.');
    assert("editor.selectionHighlightBackground"@[7] == 's');
    assert("editor.wordHighlightBackground"@[0] == 'e' && "editor.wordHighlightBackground"@[6] == '.' && "editor.wordHighlightBackground"@[7] == 'w');
    assert("editor.findMatchBackground"@[0] == 'e' && "editor.findMatchBackground"@[7] == 'f');
    assert("editor.findMatchHighlightBackground"@[7] == 'f');
    assert("editorStickyScroll.background"@[0] == 'e');
    assert("editorStickyScrollHover.background"@[6] == 'S');
    assert("scrollbarSlider.background"@[0] == 's' && "scrollbarSlider.background"@[1] == 'c');
    assert("scrollbarSlider.hoverBackground"@[0] == 's' && "scrollbarSlider.hoverBackground"@[1] == 'c');
    assert("scrollbarSlider.activeBackground"@[0] == 's');
    assert("gitDecoration.addedResourceForeground"@[0] == 'g');
    assert("gitDecoration.deletedResourceForeground"@[14] == 'd');
    assert("gitDecoration.ignoredResourceForeground"@[14] == 'i');
    assert("diffEditor.insertedTextBackground"@[0] == 'd');
    assert("diffEditor.removedTextBackground"@[0] == 'd');
    assert("editorGutter.addedBackground"@[0] == 'e' && "editorGutter.addedBackground"@[7] == 'u');
    assert("editorGutter.modifiedBackground"@[0] == 'e');
    assert("editorGutter.deletedBackground"@[0] == 'e' && "editorGutter.deletedBackground"@[6] == 'G');
    assert("statusBar.background"@[0] == 's' && "statusBar.background"@[10] == 'b');
    assert("statusBar.foreground"@[0] == 's' && "statusBar.foreground"@[10] == 'f');
    assert("statusBar.border"@[0] == 's');
    assert("titleBar.activeForeground"@[1] == 'i' && "titleBar.activeForeground"@[15] == 'F');
    assert("titleBar.activeBackground"@[1] == 'i' && "titleBar.activeBackground"@[15] == 'B');
    assert("panelTitle.activeBorder"@[0] == 'p');
    assert("notificationsInfoIcon.foreground"@[0] == 'n');
    assert("terminal.foreground"@[0] == 't' && "terminal.foreground"@[1] == 'e' && "terminal.foreground"@[2] == 'r' && "terminal.foreground"@[9] == 'f');
    assert("terminal.ansiBlack"@[0] == 't' && "terminal.ansiBlack"@[13] == 'B');
    assert("terminal.ansiRed"@[0] == 't');
    assert("terminal.ansiGreen"@[0] == 't' && "terminal.ansiGreen"@[13] == 'G');
    assert("terminal.ansiYellow"@[0] == 't' && "terminal.ansiYellow"@[1] == 'e' && "terminal.ansiYellow"@[2] == 'r' && "terminal.ansiYellow"@[9] == 'a');
    assert("terminal.ansiBlue"@[0] == 't' && "terminal.ansiBlue"@[13] == 'B');
    assert("terminal.ansiMagenta"@[0] == 't' && "terminal.ansiMagenta"@[1] == 'e');
    assert("terminal.ansiCyan"@[0] == 't' && "terminal.ansiCyan"@[13] == 'C');
    assert("terminal.ansiWhite"@[0] == 't' && "terminal.ansiWhite"@[13] == 'W');
    assert("statusBar.debuggingBackground"@[0] == 's' && "statusBar.debuggingBackground"@[1] == 't' && "statusBar.debuggingBackground"@[19] == 'B');
    assert("statusBar.debuggingForeground"@[0] == 's' && "statusBar.debuggingForeground"@[1] == 't' && "statusBar.debuggingForeground"@[19] == 'F');
    assert("statusBarItem.remoteBackground"@[0] == 's' && "statusBarItem.remoteBackground"@[20] == 'B');
    assert("statusBarItem.remoteForeground"@[0] == 's' && "statusBarItem.remoteForeground"@[20] == 'F');
    assert("symbolIcon.classForeground"@[0] == 's' && "symbolIcon.classForeground"@[1] == 'y');
    assert("symbolIcon.enumeratorForeground"@[0] == 's' && "symbolIcon.enumeratorForeground"@[1] == 'y');
    assert("symbolIcon.enumeratorMemberForeground"@[0] == 's');
    assert("symbolIcon.functionForeground"@[0] == 's' && "symbolIcon.functionForeground"@[1] == 'y' && "symbolIcon.functionForeground"@[11] == 'f');
    assert("symbolIcon.variableForeground"@[0] == 's' && "symbolIcon.variableForeground"@[1] == 'y' && "symbolIcon.variableForeground"@[11] == 'v');
    lemma_index_cases(i);
    assert forall|j: int| 0 <= j < 106 && j != i implies keys[j] != keys[i] by {
        lemma_index_cases(j);
    }
}

/// The colour table that the theme's rules build from the palette `p`, given
/// the colours the parser's answers make of the rules' sources (`vals`),
/// holds every one of its keys, each with a normal form of its own source:
/// the palette entry or fixed colour named, with the alpha byte where one is
/// set. `build_theme` with the rules of `theme_color_rules` produces exactly
/// this table, and so does `apply_color_rules` on an empty table (their
/// `ensures`).
#[verifier::spinoff_prover]
#[verifier::rlimit(100)]
pub proof fn lemma_theme_table(p: Primitives, vals: Seq<Seq<char>>)
    requires
        rule_values_ok(p, theme_rules(), vals),
    ensures
        ({
            let m = insert_all(Map::empty(), rule_entries(theme_rules(), vals));
            &&& m.contains_key("focusBorder"@) && is_normal_form_of("#3d5fcf"@, m["focusBorder"@])
            &&& m.contains_key("foreground"@) && is_normal_form_of(p.fg.default@, m["foreground"@])
            &&& m.contains_key("descriptionForeground"@) && is_normal_form_of(p.fg.muted@, m["descriptionForeground"@])
            &&& m.contains_key("errorForeground"@) && is_normal_form_of(p.danger.fg@, m["errorForeground"@])
            &&& m.contains_key("widget.shadow"@) && is_normal_form_of("rgba(1,4,9,0.85)"@, m["widget.shadow"@])
            &&& m.contains_key("textLink.foreground"@) && is_normal_form_of("#85a5ff"@, m["textLink.foreground"@])
            &&& m.contains_key("textLink.activeForeground"@) && is_normal_form_of("#85a5ff"@, m["textLink.activeForeground"@])
            &&& m.contains_key("button.background"@) && is_normal_form_of("#3d5fcf"@, m["button.background"@])
            &&& m.contains_key("button.foreground"@) && is_normal_form_of(p.btn.primary.text@, m["button.foreground"@])
            &&& m.contains_key("button.hoverBackground"@) && is_normal_form_of(p.btn.primary.hover_bg@, m["button.hoverBackground"@])
            &&& m.contains_key("badge.background"@) && is_normal_form_of("#3d5fcf"@, m["badge.background"@])
            &&& m.contains_key("progressBar.background"@) && is_normal_form_of("#3d5fcf"@, m["progressBar.background"@])
            &&& m.contains_key("input.background"@) && is_normal_form_of(p.canvas.default@, m["input.background"@])
            &&& m.contains_key("input.border"@) && is_normal_form_of(p.border.default@, m["input.border"@])
            &&& m.contains_key("input.foreground"@) && is_normal_form_of(p.fg.default@, m["input.foreground"@])
            &&& m.contains_key("input.placeholderForeground"@) && is_normal_form_of(p.fg.subtle@, m["input.placeholderForeground"@])
            &&& m.contains_key("dropdown.background"@) && is_normal_form_of(p.canvas.overlay@, m["dropdown.background"@])
            &&& m.contains_key("dropdown.border"@) && is_normal_form_of(p.border.default@, m["dropdown.border"@])
            &&& m.contains_key("dropdown.foreground"@) && is_normal_form_of(p.fg.default@, m["dropdown.foreground"@])
            &&& m.contains_key("list.highlightForeground"@) && is_normal_form_of("#85a5ff"@, m["list.highlightForeground"@])
            &&& m.contains_key("list.activeSelectionForeground"@) && is_normal_form_of("#85a5ff"@, m["list.activeSelectionForeground"@])
            &&& m.contains_key("list.hoverBackground"@) && is_alpha_form_of(p.neutral.subtle@, 128, m["list.hoverBackground"@])
            &&& m.contains_key("list.activeSelectionBackground"@) && is_alpha_form_of("#3d5fcf"@, 51, m["list.activeSelectionBackground"@])
            &&& m.contains_key("list.inactiveSelectionBackground"@) && is_alpha_form_of(p.neutral.muted@, 128, m["list.inactiveSelectionBackground"@])
            &&& m.contains_key("list.dropBackground"@) && is_normal_form_of(p.neutral.muted@, m["list.dropBackground"@])
            &&& m.contains_key("activityBar.background"@) && is_normal_form_of(p.canvas.default@, m["activityBar.background"@])
            &&& m.contains_key("activityBar.foreground"@) && is_normal_form_of(p.fg.default@, m["activityBar.foreground"@])
            &&& m.contains_key("activityBar.inactiveForeground"@) && is_normal_form_of(p.fg.muted@, m["activityBar.inactiveForeground"@])
            &&& m.contains_key("activityBar.border"@) && is_normal_form_of(p.border.default@, m["activityBar.border"@])
            &&& m.contains_key("activityBar.activeBorder"@) && is_normal_form_of("#3d5fcf"@, m["activityBar.activeBorder"@])
            &&& m.contains_key("activityBarBadge.background"@) && is_normal_form_of("#3d5fcf"@, m["activityBarBadge.background"@])
            &&& m.contains_key("sideBar.background"@) && is_normal_form_of("#080b10"@, m["sideBar.background"@])
            &&& m.contains_key("sideBar.foreground"@) && is_normal_form_of(p.fg.default@, m["sideBar.foreground"@])
            &&& m.contains_key("sideBar.border"@) && is_normal_form_of(p.border.default@, m["sideBar.border"@])
            &&& m.contains_key("sideBarTitle.foreground"@) && is_normal_form_of(p.fg.muted@, m["sideBarTitle.foreground"@])
            &&& m.contains_key("sideBarSectionHeader.background"@) && is_normal_form_of("#080b10"@, m["sideBarSectionHeader.background"@])
            &&& m.contains_key("editorGroup.border"@) && is_normal_form_of(p.border.default@, m["editorGroup.border"@])
            &&& m.contains_key("editorGroupHeader.tabsBorder"@) && is_normal_form_of(p.border.default@, m["editorGroupHeader.tabsBorder"@])
            &&& m.contains_key("editorGroupHeader.tabsBackground"@) && is_normal_form_of("#080b10"@, m["editorGroupHeader.tabsBackground"@])
            &&& m.contains_key("tab.border"@) && is_normal_form_of(p.border.default@, m["tab.border"@])
            &&& m.contains_key("tab.activeBorderTop"@) && is_normal_form_of("#3d5fcf"@, m["tab.activeBorderTop"@])
            &&& m.contains_key("tab.activeBackground"@) && is_normal_form_of(p.canvas.default@, m["tab.activeBackground"@])
            &&& m.contains_key("tab.activeForeground"@) && is_normal_form_of(p.fg.default@, m["tab.activeForeground"@])
            &&& m.contains_key("tab.inactiveBackground"@) && is_normal_form_of("#080b10"@, m["tab.inactiveBackground"@])
            &&& m.contains_key("tab.inactiveForeground"@) && is_normal_form_of(p.fg.muted@, m["tab.inactiveForeground"@])
            &&& m.contains_key("tab.hoverBackground"@) && is_normal_form_of(p.canvas.default@, m["tab.hoverBackground"@])
            &&& m.contains_key("editor.background"@) && is_normal_form_of(p.canvas.default@, m["editor.background"@])
            &&& m.contains_key("editor.foreground"@) && is_normal_form_of(p.fg.default@, m["editor.foreground"@])
            &&& m.contains_key("editorCursor.foreground"@) && is_normal_form_of("#3d5fcf"@, m["editorCursor.foreground"@])
            &&& m.contains_key("editorLineNumber.foreground"@) && is_normal_form_of(p.fg.subtle@, m["editorLineNumber.foreground"@])
            &&& m.contains_key("editorLineNumber.activeForeground"@) && is_normal_form_of(p.fg.default@, m["editorLineNumber.activeForeground"@])
            &&& m.contains_key("editorWidget.background"@) && is_normal_form_of(p.canvas.overlay@, m["editorWidget.background"@])
            &&& m.contains_key("editor.lineHighlightBackground"@) && is_normal_form_of(p.codemirror.activeline_bg@, m["editor.lineHighlightBackground"@])
            &&& m.contains_key("editorWarning.foreground"@) && is_normal_form_of("#e4a341"@, m["editorWarning.foreground"@])
            &&& m.contains_key("editorError.foreground"@) && is_normal_form_of("#eb5353"@, m["editorError.foreground"@])
            &&& m.contains_key("editorInfo.foreground"@) && is_normal_form_of("#3794ff"@, m["editorInfo.foreground"@])
            &&& m.contains_key("problemsWarningIcon.foreground"@) && is_normal_form_of("#e4a341"@, m["problemsWarningIcon.foreground"@])
            &&& m.contains_key("problemsErrorIcon.foreground"@) && is_normal_form_of("#eb5353"@, m["problemsErrorIcon.foreground"@])
            &&& m.contains_key("problemsInfoIcon.foreground"@) && is_normal_form_of("#3794ff"@, m["problemsInfoIcon.foreground"@])
            &&& m.contains_key("editor.selectionBackground"@) && is_alpha_form_of("#3d5fcf"@, 51, m["editor.selectionBackground"@])
            &&& m.contains_key("editor.inactiveSelectionBackground"@) && is_alpha_form_of("#3d5fcf"@, 26, m["editor.inactiveSelectionBackground"@])
            &&& m.contains_key("editor.selectionHighlightBackground"@) && is_alpha_form_of(p.success.fg@, 64, m["editor.selectionHighlightBackground"@])
            &&& m.contains_key("editor.wordHighlightBackground"@) && is_alpha_form_of(p.neutral.subtle@, 128, m["editor.wordHighlightBackground"@])
            &&& m.contains_key("editor.findMatchBackground"@) && is_normal_form_of(p.attention.emphasis@, m["editor.findMatchBackground"@])
            &&& m.contains_key("editor.findMatchHighlightBackground"@) && is_alpha_form_of(p.attention.fg@, 77, m["editor.findMatchHighlightBackground"@])
            &&& m.contains_key("editorStickyScroll.background"@) && is_normal_form_of(p.canvas.default@, m["editorStickyScroll.background"@])
            &&& m.contains_key("editorStickyScrollHover.background"@) && is_normal_form_of(p.canvas.subtle@, m["editorStickyScrollHover.background"@])
            &&& m.contains_key("scrollbarSlider.background"@) && is_alpha_form_of(p.neutral.emphasis@, 51, m["scrollbarSlider.background"@])
            &&& m.contains_key("scrollbarSlider.hoverBackground"@) && is_alpha_form_of(p.neutral.emphasis@, 77, m["scrollbarSlider.hoverBackground"@])
            &&& m.contains_key("scrollbarSlider.activeBackground"@) && is_alpha_form_of(p.neutral.emphasis@, 102, m["scrollbarSlider.activeBackground"@])
            &&& m.contains_key("gitDecoration.addedResourceForeground"@) && is_normal_form_of("#48e477"@, m["gitDecoration.addedResourceForeground"@])
            &&& m.contains_key("gitDecoration.untrackedResourceForeground"@) && is_normal_form_of("#48e477"@, m["gitDecoration.untrackedResourceForeground"@])
            &&& m.contains_key("gitDecoration.modifiedResourceForeground"@) && is_normal_form_of("#85a5ff"@, m["gitDecoration.modifiedResourceForeground"@])
            &&& m.contains_key("gitDecoration.deletedResourceForeground"@) && is_normal_form_of("#f85149"@, m["gitDecoration.deletedResourceForeground"@])
            &&& m.contains_key("gitDecoration.ignoredResourceForeground"@) && is_normal_form_of(p.fg.subtle@, m["gitDecoration.ignoredResourceForeground"@])
            &&& m.contains_key("gitDecoration.conflictingResourceForeground"@) && is_normal_form_of(p.severe.fg@, m["gitDecoration.conflictingResourceForeground"@])
            &&& m.contains_key("diffEditor.insertedTextBackground"@) && is_alpha_form_of("#48e477"@, 38, m["diffEditor.insertedTextBackground"@])
            &&& m.contains_key("diffEditor.removedTextBackground"@) && is_alpha_form_of("#f85149"@, 38, m["diffEditor.removedTextBackground"@])
            &&& m.contains_key("editorGutter.addedBackground"@) && is_normal_form_of("#48e477"@, m["editorGutter.addedBackground"@])
            &&& m.contains_key("editorGutter.modifiedBackground"@) && is_normal_form_of("#85a5ff"@, m["editorGutter.modifiedBackground"@])
            &&& m.contains_key("editorGutter.deletedBackground"@) && is_normal_form_of("#f85149"@, m["editorGutter.deletedBackground"@])
            &&& m.contains_key("statusBar.background"@) && is_normal_form_of(p.canvas.default@, m["statusBar.background"@])
            &&& m.contains_key("statusBar.foreground"@) && is_normal_form_of("#e9e9e9"@, m["statusBar.foreground"@])
            &&& m.contains_key("statusBar.border"@) && is_normal_form_of(p.border.default@, m["statusBar.border"@])
            &&& m.contains_key("titleBar.activeForeground"@) && is_normal_form_of("#b1bac4"@, m["titleBar.activeForeground"@])
            &&& m.contains_key("titleBar.activeBackground"@) && is_normal_form_of(p.canvas.default@, m["titleBar.activeBackground"@])
            &&& m.contains_key("panelTitle.activeBorder"@) && is_normal_form_of("#3d5fcf"@, m["panelTitle.activeBorder"@])
            &&& m.contains_key("notificationsInfoIcon.foreground"@) && is_normal_form_of("#85a5ff"@, m["notificationsInfoIcon.foreground"@])
            &&& m.contains_key("terminal.foreground"@) && is_normal_form_of(p.fg.default@, m["terminal.foreground"@])
            &&& m.contains_key("terminal.ansiBlack"@) && is_normal_form_of(p.ansi.black@, m["terminal.ansiBlack"@])
            &&& m.contains_key("terminal.ansiRed"@) && is_normal_form_of(p.ansi.red@, m["terminal.ansiRed"@])
            &&& m.contains_key("terminal.ansiGreen"@) && is_normal_form_of(p.ansi.green@, m["terminal.ansiGreen"@])
            &&& m.contains_key("terminal.ansiYellow"@) && is_normal_form_of(p.ansi.yellow@, m["terminal.ansiYellow"@])
            &&& m.contains_key("terminal.ansiBlue"@) && is_normal_form_of(p.ansi.blue@, m["terminal.ansiBlue"@])
            &&& m.contains_key("terminal.ansiMagenta"@) && is_normal_form_of(p.ansi.magenta@, m["terminal.ansiMagenta"@])
            &&& m.contains_key("terminal.ansiCyan"@) && is_normal_form_of(p.ansi.cyan@, m["terminal.ansiCyan"@])
            &&& m.contains_key("terminal.ansiWhite"@) && is_normal_form_of(p.ansi.white@, m["terminal.ansiWhite"@])
            &&& m.contains_key("statusBar.debuggingBackground"@) && is_normal_form_of("#3d5fcf"@, m["statusBar.debuggingBackground"@])
            &&& m.contains_key("statusBar.debuggingForeground"@) && is_normal_form_of("#e9e9e9"@, m["statusBar.debuggingForeground"@])
            &&& m.contains_key("statusBarItem.remoteBackground"@) && is_normal_form_of("#3d5fcf"@, m["statusBarItem.remoteBackground"@])
            &&& m.contains_key("statusBarItem.remoteForeground"@) && is_normal_form_of("#e9e9e9"@, m["statusBarItem.remoteForeground"@])
            &&& m.contains_key("symbolIcon.classForeground"@) && is_normal_form_of("#4EC9B0"@, m["symbolIcon.classForeground"@])
            &&& m.contains_key("symbolIcon.enumeratorForeground"@) && is_normal_form_of("#4EC9B0"@, m["symbolIcon.enumeratorForeground"@])
            &&& m.contains_key("symbolIcon.enumeratorMemberForeground"@) && is_normal_form_of("#FF9E64"@, m["symbolIcon.enumeratorMemberForeground"@])
            &&& m.contains_key("symbolIcon.functionForeground"@) && is_normal_form_of("#cac68c"@, m["symbolIcon.functionForeground"@])
            &&& m.contains_key("symbolIcon.variableForeground"@) && is_normal_form_of("#74dbf5"@, m["symbolIcon.variableForeground"@])
        }),
{
    let s = rule_entries(theme_rules(), vals);
    assert forall|j: int| 0 <= j < 106 implies (#[trigger] s[j]).0 == theme_keys()[j] && s[j].1
        == vals[j] by {}
    lemma_theme_keys_distinct(0);
    lemma_last_entry_for_key(s, 0);
    lemma_theme_keys_distinct(1);
    lemma_last_entry_for_key(s, 1);
    lemma_theme_keys_distinct(2);
    lemma_last_entry_for_key(s, 2);
    lemma_theme_keys_distinct(3);
    lemma_last_entry_for_key(s, 3);
    lemma_theme_keys_distinct(4);
    lemma_last_entry_for_key(s, 4);
    lemma_theme_keys_distinct(5);
    lemma_last_entry_for_key(s, 5);
    lemma_theme_keys_distinct(6);
    lemma_last_entry_for_key(s, 6);
    lemma_theme_keys_distinct(7);
    lemma_last_entry_for_key(s, 7);
    lemma_theme_keys_distinct(8);
    lemma_last_entry_for_key(s, 8);
    lemma_theme_keys_distinct(9);
    lemma_last_entry_for_key(s, 9);
    lemma_theme_keys_distinct(10);
    lemma_last_entry_for_key(s, 10);
    lemma_theme_keys_distinct(11);
    lemma_last_entry_for_key(s, 11);
    lemma_theme_keys_distinct(12);
    lemma_last_entry_for_key(s, 12);
    lemma_theme_keys_distinct(13);
    lemma_last_entry_for_key(s, 13);
    lemma_theme_keys_distinct(14);
    lemma_last_entry_for_key(s, 14);
    lemma_theme_keys_distinct(15);
    lemma_last_entry_for_key(s, 15);
    lemma_theme_keys_distinct(16);
    lemma_last_entry_for_key(s, 16);
    lemma_theme_keys_distinct(17);
    lemma_last_entry_for_key(s, 17);
    lemma_theme_keys_distinct(18);
    lemma_last_entry_for_key(s, 18);
    lemma_theme_keys_distinct(19);
    lemma_last_entry_for_key(s, 19);
    lemma_theme_keys_distinct(20);
    lemma_last_entry_for_key(s, 20);
    lemma_theme_keys_distinct(21);
    lemma_last_entry_for_key(s, 21);
    lemma_theme_keys_distinct(22);
    lemma_last_entry_for_key(s, 22);
    lemma_theme_keys_distinct(23);
    lemma_last_entry_for_key(s, 23);
    lemma_theme_keys_distinct(24);
    lemma_last_entry_for_key(s, 24);
    lemma_theme_keys_distinct(25);
    lemma_last_entry_for_key(s, 25);
    lemma_theme_keys_distinct(26);
    lemma_last_entry_for_key(s, 26);
    lemma_theme_keys_distinct(27);
    lemma_last_entry_for_key(s, 27);
    lemma_theme_keys_distinct(28);
    lemma_last_entry_for_key(s, 28);
    lemma_theme_keys_distinct(29);
    lemma_last_entry_for_key(s, 29);
    lemma_theme_keys_distinct(30);
    lemma_last_entry_for_key(s, 30);
    lemma_theme_keys_distinct(31);
    lemma_last_entry_for_key(s, 31);
    lemma_theme_keys_distinct(32);
    lemma_last_entry_for_key(s, 32);
    lemma_theme_keys_distinct(33);
    lemma_last_entry_for_key(s, 33);
    lemma_theme_keys_distinct(34);
    lemma_last_entry_for_key(s, 34);
    lemma_theme_keys_distinct(35);
    lemma_last_entry_for_key(s, 35);
    lemma_theme_keys_distinct(36);
    lemma_last_entry_for_key(s, 36);
    lemma_theme_keys_distinct(37);
    lemma_last_entry_for_key(s, 37);
    lemma_theme_keys_distinct(38);
    lemma_last_entry_for_key(s, 38);
    lemma_theme_keys_distinct(39);
    lemma_last_entry_for_key(s, 39);
    lemma_theme_keys_distinct(40);
    lemma_last_entry_for_key(s, 40);
    lemma_theme_keys_distinct(41);
    lemma_last_entry_for_key(s, 41);
    lemma_theme_keys_distinct(42);
    lemma_last_entry_for_key(s, 42);
    lemma_theme_keys_distinct(43);
    lemma_last_entry_for_key(s, 43);
    lemma_theme_keys_distinct(44);
    lemma_last_entry_for_key(s, 44);
    lemma_theme_keys_distinct(45);
    lemma_last_entry_for_key(s, 45);
    lemma_theme_keys_distinct(46);
    lemma_last_entry_for_key(s, 46);
    lemma_theme_keys_distinct(47);
    lemma_last_entry_for_key(s, 47);
    lemma_theme_keys_distinct(48);
    lemma_last_entry_for_key(s, 48);
    lemma_theme_keys_distinct(49);
    lemma_last_entry_for_key(s, 49);
    lemma_theme_keys_distinct(50);
    lemma_last_entry_for_key(s, 50);
    lemma_theme_keys_distinct(51);
    lemma_last_entry_for_key(s, 51);
    lemma_theme_keys_distinct(52);
    lemma_last_entry_for_key(s, 52);
    lemma_theme_keys_distinct(53);
    lemma_last_entry_for_key(s, 53);
    lemma_theme_keys_distinct(54);
    lemma_last_entry_for_key(s, 54);
    lemma_theme_keys_distinct(55);
    lemma_last_entry_for_key(s, 55);
    lemma_theme_keys_distinct(56);
    lemma_last_entry_for_key(s, 56);
    lemma_theme_keys_distinct(57);
    lemma_last_entry_for_key(s, 57);
    lemma_theme_keys_distinct(58);
    lemma_last_entry_for_key(s, 58);
    lemma_theme_keys_distinct(59);
    lemma_last_entry_for_key(s, 59);
    lemma_theme_keys_distinct(60);
    lemma_last_entry_for_key(s, 60);
    lemma_theme_keys_distinct(61);
    lemma_last_entry_for_key(s, 61);
    lemma_theme_keys_distinct(62);
    lemma_last_entry_for_key(s, 62);
    lemma_theme_keys_distinct(63);
    lemma_last_entry_for_key(s, 63);
    lemma_theme_keys_distinct(64);
    lemma_last_entry_for_key(s, 64);
    lemma_theme_keys_distinct(65);
    lemma_last_entry_for_key(s, 65);
    lemma_theme_keys_distinct(66);
    lemma_last_entry_for_key(s, 66);
    lemma_theme_keys_distinct(67);
    lemma_last_entry_for_key(s, 67);
    lemma_theme_keys_distinct(68);
    lemma_last_entry_for_key(s, 68);
    lemma_theme_keys_distinct(69);
    lemma_last_entry_for_key(s, 69);
    lemma_theme_keys_distinct(70);
    lemma_last_entry_for_key(s, 70);
    lemma_theme_keys_distinct(71);
    lemma_last_entry_for_key(s, 71);
    lemma_theme_keys_distinct(72);
    lemma_last_entry_for_key(s, 72);
    lemma_theme_keys_distinct(73);
    lemma_last_entry_for_key(s, 73);
    lemma_theme_keys_distinct(74);
    lemma_last_entry_for_key(s, 74);
    lemma_theme_keys_distinct(75);
    lemma_last_entry_for_key(s, 75);
    lemma_theme_keys_distinct(76);
    lemma_last_entry_for_key(s, 76);
    lemma_theme_keys_distinct(77);
    lemma_last_entry_for_key(s, 77);
    lemma_theme_keys_distinct(78);
    lemma_last_entry_for_key(s, 78);
    lemma_theme_keys_distinct(79);
    lemma_last_entry_for_key(s, 79);
    lemma_theme_keys_distinct(80);
    lemma_last_entry_for_key(s, 80);
    lemma_theme_keys_distinct(81);
    lemma_last_entry_for_key(s, 81);
    lemma_theme_keys_distinct(82);
    lemma_last_entry_for_key(s, 82);
    lemma_theme_keys_distinct(83);
    lemma_last_entry_for_key(s, 83);
    lemma_theme_keys_distinct(84);
    lemma_last_entry_for_key(s, 84);
    lemma_theme_keys_distinct(85);
    lemma_last_entry_for_key(s, 85);
    lemma_theme_keys_distinct(86);
    lemma_last_entry_for_key(s, 86);
    lemma_theme_keys_distinct(87);
    lemma_last_entry_for_key(s, 87);
    lemma_theme_keys_distinct(88);
    lemma_last_entry_for_key(s, 88);
    lemma_theme_keys_distinct(89);
    lemma_last_entry_for_key(s, 89);
    lemma_theme_keys_distinct(90);
    lemma_last_entry_for_key(s, 90);
    lemma_theme_keys_distinct(91);
    lemma_last_entry_for_key(s, 91);
    lemma_theme_keys_distinct(92);
    lemma_last_entry_for_key(s, 92);
    lemma_theme_keys_distinct(93);
    lemma_last_entry_for_key(s, 93);
    lemma_theme_keys_distinct(94);
    lemma_last_entry_for_key(s, 94);
    lemma_theme_keys_distinct(95);
    lemma_last_entry_for_key(s, 95);
    lemma_theme_keys_distinct(96);
    lemma_last_entry_for_key(s, 96);
    lemma_theme_keys_distinct(97);
    lemma_last_entry_for_key(s, 97);
    lemma_theme_keys_distinct(98);
    lemma_last_entry_for_key(s, 98);
    lemma_theme_keys_distinct(99);
    lemma_last_entry_for_key(s, 99);
    lemma_theme_keys_distinct(100);
    lemma_last_entry_for_key(s, 100);
    lemma_theme_keys_distinct(101);
    lemma_last_entry_for_key(s, 101);
    lemma_theme_keys_distinct(102);
    lemma_last_entry_for_key(s, 102);
    lemma_theme_keys_distinct(103);
    lemma_last_entry_for_key(s, 103);
    lemma_theme_keys_distinct(104);
    lemma_last_entry_for_key(s, 104);
    lemma_theme_keys_distinct(105);
    lemma_last_entry_for_key(s, 105);
}

} // verus!
