use twitter_auth::json::Json;

fn text(s: &str) -> Json {
    Json::Text(s.to_string())
}

#[test]
fn get_finds_the_field_of_an_object() {
    let value = Json::Object(vec![
        ("a".to_string(), Json::Number(1)),
        ("b".to_string(), text("two")),
        ("a".to_string(), Json::Number(3)),
    ]);
    assert_eq!(value.get("a"), Some(&Json::Number(1)));
    assert_eq!(value.get("b"), Some(&text("two")));
    assert_eq!(value.get("c"), None);
    assert_eq!(value.get(""), None);
}

#[test]
fn get_on_other_values_finds_nothing() {
    assert_eq!(Json::Null.get("a"), None);
    assert_eq!(text("a").get("a"), None);
    assert_eq!(Json::List(vec![text("a")]).get("a"), None);
    assert_eq!(Json::Object(vec![]).get("a"), None);
}

#[test]
fn as_str_reads_strings_only() {
    assert_eq!(text("abc").as_str(), Some("abc"));
    assert_eq!(Json::Number(7).as_str(), None);
    assert_eq!(Json::Bool(true).as_str(), None);
    assert_eq!(Json::Null.as_str(), None);
}

#[test]
fn as_array_reads_arrays_only() {
    assert_eq!(Json::List(vec![Json::Null]).as_array(), Some(&vec![Json::Null]));
    assert_eq!(Json::Object(vec![]).as_array(), None);
    assert_eq!(text("[]").as_array(), None);
}

#[test]
fn builders_make_what_they_say() {
    assert_eq!(Json::text("x"), text("x"));
    assert_eq!(Json::object1("k", Json::Null), Json::Object(vec![("k".to_string(), Json::Null)]));
    assert_eq!(
        Json::object2("k", Json::Bool(false), "l", Json::Number(-2)),
        Json::Object(vec![("k".to_string(), Json::Bool(false)), ("l".to_string(), Json::Number(-2))])
    );
    assert_eq!(Json::list(vec![Json::Null, text("a")]), Json::List(vec![Json::Null, text("a")]));
}
