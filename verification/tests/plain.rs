use xinshang::json::{Fields, Json};
use xinshang::settings::Settings;
use xinshang::table::Table;
use xinshang::text::{
    blank, contains_text, decimal_text, parse_u32, split, str_eq, strip_prefix, trim,
    trim_end_matches, trim_start_matches,
};

fn value(text: &str) -> serde_json::Value {
    serde_json::from_str(text).unwrap()
}

#[test]
fn texts_are_trimmed_as_everywhere() {
    for s in ["", " ", "a", " a b ", "\u{3000}心\u{a0}\u{2028}", "\u{200b}x", "\t\r\n\u{85}y"] {
        assert_eq!(trim(s), s.trim());
        assert_eq!(blank(s), s.trim().is_empty());
    }
}

#[test]
fn texts_are_taken_apart() {
    for s in ["", ",", "a,b", ",a,,b,", "心,上"] {
        assert_eq!(split(s, ','), s.split(',').collect::<Vec<_>>());
    }
    assert_eq!(strip_prefix("Bearer x", "Bearer "), Some("x"));
    assert_eq!(strip_prefix("x", "Bearer "), None);
    assert_eq!(trim_start_matches("ababc", "ab"), "c");
    assert_eq!(trim_end_matches("caaa", "a"), "c");
    assert!(contains_text("the end", "end") && !contains_text("en", "end"));
    assert!(str_eq("心", "心") && !str_eq("心", "上"));
}

#[test]
fn numbers_are_written_and_read() {
    for n in [0u64, 7, 10, 1234567890, u64::MAX] {
        assert_eq!(decimal_text(n), n.to_string());
    }
    for s in ["", "+", "-0", "007", "+5", "4294967295", "4294967296", "1a", " 1", "１"] {
        assert_eq!(parse_u32(s), s.parse::<u32>().ok());
    }
}

#[test]
fn json_goes_there_and_back() {
    let text = r#"{"a":[1,-2,2.5,true,null,"x"],"b":{"c":18446744073709551615}}"#;
    let json = Json::parse(text.as_bytes()).unwrap();
    assert_eq!(json.to_value(), value(text));
    assert!(Json::parse(b"{").is_none());
    assert!(Json::parse(b"1 2").is_none());
    let list = json.get("a").unwrap();
    assert_eq!(list.at(0).unwrap().as_natural(), Some(1));
    assert_eq!(list.at(1).unwrap().as_natural(), None);
    assert_eq!(list.at(2).unwrap().as_natural(), None);
    assert_eq!(list.at(3).unwrap().as_truth(), Some(true));
    assert_eq!(list.at(5).unwrap().as_text(), Some("x"));
    assert!(list.at(6).is_none());
    assert!(json.get("z").is_none());
    assert_eq!(Json::from_value(value(text)).into_member("b").to_value()["c"], value(text)["b"]["c"]);
    assert_eq!(Json::Null.into_member("b").to_value(), value("null"));
}

#[test]
fn the_later_field_counts() {
    let object = Fields::new().with("k", Json::text("a")).with("k", Json::text("b")).object();
    assert_eq!(object.text_under("k"), Some("b"));
    assert_eq!(object.to_value(), value(r#"{"k":"b"}"#));
}

#[test]
fn settings_are_looked_up() {
    let s = Settings::from_vars(vec![
        ("A".to_string(), " ".to_string()),
        ("B".to_string(), "b".to_string()),
        ("B".to_string(), "c".to_string()),
    ]);
    assert_eq!(s.var("A"), Some(" "));
    assert_eq!(s.pick("A"), None);
    assert_eq!(s.var("B"), Some("c"));
    assert_eq!(s.pick_either("A", "B").as_deref(), Some("c"));
    assert_eq!(s.var_either("A", "B").as_deref(), Some(" "));
    assert_eq!(s.var("C"), None);
}

#[test]
fn tables_hold_one_value_per_name() {
    let mut t: Table<u32> = Table::new();
    t.insert("a".to_string(), 1);
    t.insert("b".to_string(), 2);
    t.insert("a".to_string(), 3);
    assert_eq!(t.get("a"), Some(&3));
    assert_eq!(t.get("c"), None);
    assert_eq!(t.entries().len(), 2);
    let u = Table::from_entries(vec![("x".to_string(), 1), ("x".to_string(), 2)]);
    assert_eq!(u.get("x"), Some(&2));
    assert_eq!(u.entries().len(), 1);
}
