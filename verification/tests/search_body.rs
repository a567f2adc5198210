use sheetfetch::search::{
    build_search_body, format_file_id, xml_escape, SearchQuery, BODY_MID, BODY_PREFIX, BODY_SUFFIX,
};

#[test]
fn body_embeds_scope_and_id() {
    let query = SearchQuery { file_id: 42, user_scope: "alice".to_owned() };
    let body = build_search_body(&query);
    let expected =
        format!("{}{}{}{}{}", BODY_PREFIX, "alice", BODY_MID, "42", BODY_SUFFIX);
    assert_eq!(body, expected);
    assert!(body.contains("<d:href>/files/alice</d:href>"));
    assert!(body.contains("<d:literal>42</d:literal>"));
}

#[test]
fn body_escapes_scope() {
    let query = SearchQuery { file_id: 7, user_scope: "a&b<c>\"d'e".to_owned() };
    let body = build_search_body(&query);
    assert!(body.contains("<d:href>/files/a&amp;b&lt;c&gt;&quot;d&apos;e</d:href>"));
    assert!(!body.contains("a&b"));
}

#[test]
fn escape_exact_values() {
    assert_eq!(xml_escape("plain"), "plain");
    assert_eq!(xml_escape(""), "");
    assert_eq!(xml_escape("&<>\"'"), "&amp;&lt;&gt;&quot;&apos;");
    assert_eq!(xml_escape("früh"), "früh");
}

#[test]
fn file_id_exact_values() {
    assert_eq!(format_file_id(0), "0");
    assert_eq!(format_file_id(42), "42");
    assert_eq!(format_file_id(-42), "-42");
    assert_eq!(format_file_id(i32::MAX), "2147483647");
    assert_eq!(format_file_id(i32::MIN), "-2147483648");
}
