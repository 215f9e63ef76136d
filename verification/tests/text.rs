use engine::json::{array_of_texts, object_of, object_of_texts, parse_json, parse_yaml, push_member, Json};
use engine::text::{bytes_eq, chars_of, decimal, find_char, parse_u64, prefix_at, skip_all, str_eq, str_lt, trim_range};

fn chars(s: &str) -> Vec<char> {
    s.chars().collect()
}

#[test]
fn texts_are_compared_by_their_characters() {
    assert!(str_eq("", ""));
    assert!(str_eq("läuft", "läuft"));
    assert!(!str_eq("a", "b"));
    assert!(!str_eq("a", "ab"));
    assert!(!str_eq("ab", "a"));
    assert!(bytes_eq(b"abc", b"abc"));
    assert!(!bytes_eq(b"abc", b"abd"));
    assert!(!bytes_eq(b"abc", b"ab"));
    assert_eq!(chars_of("aé🔒"), vec!['a', 'é', '🔒']);
    assert_eq!(engine::text::concat("ab", "cd"), "abcd");
    assert_eq!(engine::text::concat3("a", "", "c"), "ac");
}

#[test]
fn texts_sort_as_strings_do() {
    let samples = ["", "a", "A", "ab", "b", "ping", "read_file", "Z", "é", "z", "🔒", "aa", "a\u{0}"];
    for x in samples {
        for y in samples {
            assert_eq!(str_lt(x, y), x < y, "{:?} < {:?}", x, y);
        }
    }
}

#[test]
fn numbers_are_written_in_decimal() {
    assert_eq!(decimal(0), "0");
    assert_eq!(decimal(7), "7");
    assert_eq!(decimal(10), "10");
    assert_eq!(decimal(4096), "4096");
    assert_eq!(decimal(30000), "30000");
    assert_eq!(decimal(u64::MAX), "18446744073709551615");
}

#[test]
fn numbers_are_read_from_decimal_digits_only() {
    assert_eq!(parse_u64("0"), Some(0));
    assert_eq!(parse_u64("007"), Some(7));
    assert_eq!(parse_u64("30000"), Some(30000));
    assert_eq!(parse_u64("18446744073709551615"), Some(u64::MAX));
    assert_eq!(parse_u64("18446744073709551616"), None);
    assert_eq!(parse_u64("99999999999999999999999"), None);
    assert_eq!(parse_u64(""), None);
    assert_eq!(parse_u64("+5"), None);
    assert_eq!(parse_u64("-5"), None);
    assert_eq!(parse_u64("5.0"), None);
    assert_eq!(parse_u64(" 5"), None);
    assert_eq!(parse_u64("٥"), None);
    for n in [1u64, 9, 10, 99, 100, 12345678901234567890] {
        assert_eq!(parse_u64(&decimal(n)), Some(n));
    }
}

#[test]
fn prefixes_are_found_and_skipped() {
    let text = chars("ababx/y");
    let ab = chars("ab");
    assert!(prefix_at(&text, 0, &ab));
    assert!(!prefix_at(&text, 1, &ab));
    assert!(prefix_at(&text, 2, &ab));
    assert!(!prefix_at(&text, 6, &ab));
    assert!(prefix_at(&text, 7, &chars("")));
    assert_eq!(skip_all(&text, 0, &ab), 4);
    assert_eq!(skip_all(&text, 1, &ab), 1);
    assert_eq!(skip_all(&text, 0, &chars("")), 0);
    assert_eq!(find_char(&text, 0, '/'), 5);
    assert_eq!(find_char(&text, 6, '/'), 7);
    assert_eq!(find_char(&text, 0, 'a'), 0);
    assert_eq!(trim_range(&chars("\"\"x\"y\"\""), 0, 7, '"'), (2, 5));
    assert_eq!(trim_range(&chars("\"\"\""), 0, 3, '"'), (3, 3));
    assert_eq!(trim_range(&chars("abc"), 1, 2, '"'), (1, 2));
}

#[test]
fn json_text_is_read_into_documents() {
    let doc = parse_json(r#"{"b":[1,-2,1.5,"x",null,true],"a":{"n":18446744073709551615}}"#).unwrap();
    assert_eq!(
        doc,
        Json::Object(vec![
            (
                "b".to_string(),
                Json::Array(vec![
                    Json::Number("1".into()),
                    Json::Number("-2".into()),
                    Json::Number("1.5".into()),
                    Json::String("x".into()),
                    Json::Null,
                    Json::Bool(true),
                ])
            ),
            ("a".to_string(), Json::Object(vec![("n".to_string(), Json::Number("18446744073709551615".into()))])),
        ])
    );
    assert_eq!(parse_json("null"), Ok(Json::Null));
    assert!(parse_json("").is_err());
    assert!(parse_json("{").is_err());
    assert!(parse_json("{} trailing").is_err());
    assert_eq!(parse_json("{").unwrap_err(), "EOF while parsing an object at line 1 column 1");
}

#[test]
fn yaml_text_is_read_into_documents() {
    let doc = parse_yaml("name: x\nsteps:\n  - probe: network\n    n: 5\n").unwrap();
    assert_eq!(
        doc,
        Json::Object(vec![
            ("name".to_string(), Json::String("x".into())),
            (
                "steps".to_string(),
                Json::Array(vec![Json::Object(vec![
                    ("probe".to_string(), Json::String("network".into())),
                    ("n".to_string(), Json::Number("5".into())),
                ])])
            ),
        ])
    );
    assert!(parse_yaml("a: [1, 2").is_err());
}

#[test]
fn members_are_found_by_name() {
    let doc = parse_json(r#"{"path":"/tmp/a","n":1,"path2":null}"#).unwrap();
    assert_eq!(doc.get("path"), Some(&Json::String("/tmp/a".into())));
    assert_eq!(doc.get("missing"), None);
    assert_eq!(doc.str_member("path"), Some("/tmp/a"));
    assert_eq!(doc.str_member("n"), None);
    assert_eq!(doc.get("n").unwrap().as_number(), Some("1"));
    assert_eq!(doc.get("n").unwrap().as_str(), None);
    assert!(doc.get("path2").unwrap().is_null());
    assert!(!doc.is_null());
    assert_eq!(Json::Null.get("path"), None);
    assert_eq!(Json::Array(vec![]).get("path"), None);
    assert_eq!(Json::Array(vec![Json::Null]).as_array(), Some(&vec![Json::Null]));
    assert_eq!(doc.as_array(), None);
    let twice = Json::Object(vec![("k".to_string(), Json::Bool(true)), ("k".to_string(), Json::Bool(false))]);
    assert_eq!(twice.get("k"), Some(&Json::Bool(true)));
}

#[test]
fn documents_are_copied_in_full() {
    let doc = parse_json(r#"{"a":[{"b":[[],{}]},"x",2.5e3],"c":{"d":{"e":null}}}"#).unwrap();
    assert_eq!(doc.clone(), doc);
}

#[test]
fn documents_are_built_member_by_member() {
    let mut members = Vec::new();
    push_member(&mut members, "a", Json::Bool(true));
    push_member(&mut members, "b", array_of_texts(&vec!["x".to_string(), "y".to_string()]));
    push_member(&mut members, "c", object_of_texts(&vec![("k".to_string(), "v".to_string())]));
    assert_eq!(
        object_of(members),
        Json::Object(vec![
            ("a".to_string(), Json::Bool(true)),
            ("b".to_string(), Json::Array(vec![Json::String("x".into()), Json::String("y".into())])),
            ("c".to_string(), Json::Object(vec![("k".to_string(), Json::String("v".into()))])),
        ])
    );
}
