use edge_login::dict::Dict;
use edge_login::method::Method;
use edge_login::text::{same_text, split_text};

#[test]
fn same_text_compares_letter_for_letter() {
    assert!(same_text("form", "form"));
    assert!(!same_text("form", "Form"));
    assert!(!same_text("form", "forms"));
    assert!(same_text("", ""));
    assert!(same_text("caf\u{e9}", "caf\u{e9}"));
    assert!(!same_text("caf\u{e9}", "cafe"));
}

#[test]
fn split_text_cuts_at_every_separator() {
    assert_eq!(split_text("form/name", '/'), vec!["form".to_string(), "name".to_string()]);
    assert_eq!(split_text("", '/'), vec![String::new()]);
    assert_eq!(split_text("/", '/'), vec![String::new(), String::new()]);
    assert_eq!(
        split_text("a//b/", '/'),
        vec!["a".to_string(), String::new(), "b".to_string(), String::new()]
    );
    assert_eq!(split_text("plain", '/'), vec!["plain".to_string()]);
}

#[test]
fn split_text_keeps_characters_outside_ascii() {
    assert_eq!(
        split_text("gr\u{fc}n/bl\u{e5}", '/'),
        vec!["gr\u{fc}n".to_string(), "bl\u{e5}".to_string()]
    );
}

#[test]
fn split_pieces_join_back_to_the_text() {
    for text in ["", "/", "a/b", "//", "form/:field", "x/"] {
        let pieces = split_text(text, '/');
        assert!(pieces.iter().all(|p| !p.contains('/')));
        assert_eq!(pieces.join("/"), text);
    }
}

#[test]
fn dict_finds_the_value_given_last() {
    let params: Dict<String> = Dict::new()
        .with("code", "first".to_string())
        .with("state", "s".to_string())
        .with("code", "second".to_string());
    assert_eq!(params.get("code").map(|s| s.as_str()), Some("second"));
    assert_eq!(params.get("state").map(|s| s.as_str()), Some("s"));
    assert_eq!(params.get("other"), None);
    assert!(params.contains_key("code"));
    assert!(!params.contains_key("Code"));
    assert_eq!(params.len(), 3);
    assert!(!params.is_empty());
}

#[test]
fn dict_hands_out_its_entries_in_order() {
    let mut params: Dict<String> = Dict::new();
    assert!(params.is_empty());
    assert_eq!(params.entry(0), None);
    params.insert("a".to_string(), "1".to_string());
    params.insert("b".to_string(), "2".to_string());
    let (key, value) = params.entry(1).expect("the second entry");
    assert_eq!((key.as_str(), value.as_str()), ("b", "2"));
    let (key, value) = params.entry(0).expect("the first entry");
    assert_eq!((key.as_str(), value.as_str()), ("a", "1"));
    assert_eq!(params.entry(2), None);
}

#[test]
fn method_names_are_matched_letter_for_letter() {
    assert_eq!(Method::from_name("GET"), Some(Method::Get));
    assert_eq!(Method::from_name("get"), None);
    assert_eq!(Method::from_name("Get"), None);
    assert_eq!(Method::from_name(""), None);
    assert_eq!(Method::from_name("REPORT"), None);
}

#[test]
fn method_names_read_back_as_the_method() {
    let all = [
        Method::Head,
        Method::Get,
        Method::Post,
        Method::Put,
        Method::Patch,
        Method::Delete,
        Method::Options,
        Method::Connect,
        Method::Trace,
    ];
    for method in all {
        assert_eq!(Method::from_name(method.name()), Some(method));
    }
    assert_eq!(Method::Delete.name(), "DELETE");
}
