use nokto_theme::order::{compare_keys, KeyOrder};
use nokto_theme::text::{str_contains, str_eq};

#[test]
fn contains_finds_substrings() {
    assert!(str_contains("comment.line.double-slash", "comment"));
    assert!(str_contains("punctuation.definition.comment", "comment"));
    assert!(!str_contains("keyword.control", "comment"));
    assert!(!str_contains("comm", "comment"));
    assert!(str_contains("anything", ""));
    assert!(str_contains("", ""));
}

#[test]
fn contains_works_on_multibyte_text() {
    assert!(str_contains("日本語のコメント", "コメント"));
    assert!(!str_contains("日本語", "本日"));
}

#[test]
fn equality_compares_characters() {
    assert!(str_eq("KeywordGeneral", "KeywordGeneral"));
    assert!(!str_eq("KeywordGeneral", "KeywordGenera"));
    assert!(!str_eq("a", "b"));
}

#[test]
fn keys_compare_lexicographically() {
    assert_eq!(compare_keys("a", "b"), KeyOrder::Less);
    assert_eq!(compare_keys("b", "a"), KeyOrder::Greater);
    assert_eq!(compare_keys("tab", "tab"), KeyOrder::Equal);
    assert_eq!(compare_keys("tab", "tab.border"), KeyOrder::Less);
    assert_eq!(compare_keys("Z", "a"), KeyOrder::Less);
    assert_eq!(compare_keys("editor.background", "editor.foreground"), KeyOrder::Less);
    assert_eq!(compare_keys("", ""), KeyOrder::Equal);
}

#[test]
fn key_order_agrees_with_string_order() {
    let keys = ["b", "a", "é", "z", "ab", "A", "", "中", "a.b"];
    for x in keys.iter() {
        for y in keys.iter() {
            let expected = match x.cmp(y) {
                std::cmp::Ordering::Less => KeyOrder::Less,
                std::cmp::Ordering::Equal => KeyOrder::Equal,
                std::cmp::Ordering::Greater => KeyOrder::Greater,
            };
            assert_eq!(compare_keys(x, y), expected);
        }
    }
}
