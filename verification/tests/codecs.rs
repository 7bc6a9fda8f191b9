use treasury_factory::account::validate_account_id;
use treasury_factory::escape::attr_escape;
use treasury_factory::json::Json;
use treasury_factory::json::as_str;
use treasury_factory::json::obj_get;
use treasury_factory::json::parse_document;
use treasury_factory::sandbox::parse_fast_forward_command;

#[test]
fn test_attr_escape_matches_html_escape_crate() {
    let samples = vec![
        "plain",
        "a & b < c > d \"quoted\"",
        "<script>alert(\"x\")</script>",
        "no specials at all",
        "&&&&",
    ];
    for s in samples {
        let ours = String::from_utf8(attr_escape(s.as_bytes())).unwrap();
        let theirs = html_escape::encode_double_quoted_attribute(s);
        assert_eq!(ours, theirs);
    }
}

#[test]
fn test_json_parser_agrees_with_serde_on_acceptance() {
    let docs = vec![
        ("true", true),
        ("false", true),
        ("null", true),
        ("0", true),
        ("-12.5e3", true),
        ("01", false),
        ("\"hi\"", true),
        ("\"unterminated", false),
        ("{\"a\":1,\"b\":[2,3,{}]}", true),
        ("{\"a\":1,}", false),
        ("[1,2,]", false),
        ("[]", true),
        ("{}", true),
        ("  {\"a\"  :  \"b\"}  ", true),
        ("{\"esc\":\"a\\n\\t\\\\\\\"\\u0041\\ud83d\\ude00\"}", true),
        ("{\"bad\":\"\\ud800 lone\"}", false),
        ("tru", false),
        ("", false),
    ];
    for (doc, _) in &docs {
        let ours = parse_document(doc.as_bytes()).is_some();
        let serde = serde_json::from_str::<serde_json::Value>(doc).is_ok();
        assert_eq!(ours, serde, "disagreement on {:?}", doc);
    }
}

#[test]
fn test_json_parser_decodes_escapes() {
    let doc = parse_document("{\"k\":\"a\\u0041\\n\\\"\\ud83d\\ude00\"}".as_bytes()).unwrap();
    let v = obj_get(&doc, b"k").unwrap();
    let s = as_str(v).unwrap();
    assert_eq!(String::from_utf8(s.clone()).unwrap(), "aA\n\"\u{1f600}");
}

#[test]
fn test_json_parser_last_duplicate_key_wins() {
    let doc = parse_document("{\"k\":\"first\",\"k\":\"second\"}".as_bytes()).unwrap();
    let v = obj_get(&doc, b"k").unwrap();
    assert_eq!(as_str(v).unwrap(), &b"second".to_vec());
}

#[test]
fn test_json_parser_keeps_number_text() {
    let doc = parse_document("[-12.5e3]".as_bytes()).unwrap();
    match doc {
        Json::Arr(items) => match &items[0] {
            Json::Num(raw) => assert_eq!(raw, &b"-12.5e3".to_vec()),
            _ => panic!("expected a number"),
        },
        _ => panic!("expected an array"),
    }
}

#[test]
fn test_account_id_validation() {
    assert!(validate_account_id("acme.near"));
    assert!(validate_account_id("a-b_c.d2"));
    assert!(validate_account_id("ab"));
    assert!(!validate_account_id("a"), "too short");
    assert!(!validate_account_id("Acme.near"), "upper case");
    assert!(!validate_account_id(".near"), "leading separator");
    assert!(!validate_account_id("near."), "trailing separator");
    assert!(!validate_account_id("a..b"), "doubled separator");
    assert!(!validate_account_id("a b"), "space");
    let long = "a".repeat(64);
    assert!(validate_account_id(&long));
    let too_long = "a".repeat(65);
    assert!(!validate_account_id(&too_long));
}

#[test]
fn test_parse_fast_forward_command_shapes() {
    assert_eq!(parse_fast_forward_command("fast_forward(55)"), Some(55));
    assert_eq!(parse_fast_forward_command("  fast_forward(+7)\n"), Some(7));
    assert_eq!(parse_fast_forward_command("fast_forward(0)"), Some(0));
    assert_eq!(
        parse_fast_forward_command("fast_forward(18446744073709551615)"),
        Some(u64::MAX)
    );
    assert_eq!(parse_fast_forward_command("fast_forward(18446744073709551616)"), None);
    assert_eq!(parse_fast_forward_command("fast_forward()"), None);
    assert_eq!(parse_fast_forward_command("fast_forward(-1)"), None);
    assert_eq!(parse_fast_forward_command("fast_forward(1x)"), None);
    assert_eq!(parse_fast_forward_command("quit"), None);
    assert_eq!(parse_fast_forward_command(""), None);
}
