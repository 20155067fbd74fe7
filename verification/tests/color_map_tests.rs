use nokto_theme::color_map::ColorMap;

fn keys(m: &ColorMap) -> Vec<String> {
    m.entries().iter().map(|e| e.0.clone()).collect()
}

#[test]
fn entries_come_out_sorted() {
    let mut m = ColorMap::new();
    m.insert("tab.border".to_string(), "#1".to_string());
    m.insert("editor.background".to_string(), "#2".to_string());
    m.insert("activityBar.border".to_string(), "#3".to_string());
    m.insert("focusBorder".to_string(), "#4".to_string());
    assert_eq!(keys(&m), vec!["activityBar.border", "editor.background", "focusBorder", "tab.border"]);
    assert_eq!(m.len(), 4);
}

#[test]
fn insert_replaces_a_present_key() {
    let mut m = ColorMap::new();
    m.insert("a".to_string(), "1".to_string());
    m.insert("b".to_string(), "2".to_string());
    m.insert("a".to_string(), "3".to_string());
    assert_eq!(m.len(), 2);
    assert_eq!(m.get("a"), Some(&"3".to_string()));
    assert_eq!(m.get("b"), Some(&"2".to_string()));
    assert_eq!(m.get("c"), None);
}

#[test]
fn read_after_write() {
    let mut m = ColorMap::new();
    m.insert("x".to_string(), "v".to_string());
    assert_eq!(m.get("x"), Some(&"v".to_string()));
    m.insert("y".to_string(), "w".to_string());
    assert_eq!(m.get("x"), Some(&"v".to_string()));
}

#[test]
fn extend_lets_the_last_entry_win() {
    let mut m = ColorMap::new();
    m.insert("k".to_string(), "old".to_string());
    m.extend(vec![
        ("k".to_string(), "first".to_string()),
        ("j".to_string(), "j".to_string()),
        ("k".to_string(), "last".to_string()),
    ]);
    assert_eq!(m.get("k"), Some(&"last".to_string()));
    assert_eq!(m.get("j"), Some(&"j".to_string()));
    assert_eq!(keys(&m), vec!["j", "k"]);
}

#[test]
fn order_does_not_depend_on_insertion_order() {
    let mut a = ColorMap::new();
    let mut b = ColorMap::new();
    for k in ["c", "a", "b"] {
        a.insert(k.to_string(), k.to_string());
    }
    for k in ["b", "c", "a"] {
        b.insert(k.to_string(), k.to_string());
    }
    assert_eq!(a.entries(), b.entries());
}
