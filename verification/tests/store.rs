use reqwest::header::{HeaderMap, HeaderValue};
use twitter_auth::cookies::Cookie;
use twitter_auth::error::TwitterError;
use twitter_auth::store::{find_value, render_cookie_header, CookieStore};

fn canonical(name: &str, value: &str) -> Cookie {
    Cookie {
        name: name.to_string(),
        value: value.to_string(),
        domain: Some("x.com".to_string()),
        path: Some("/".to_string()),
        secure: Some(true),
        http_only: Some(true),
    }
}

fn pair(name: &str, value: &str) -> (String, String) {
    (name.to_string(), value.to_string())
}

fn sorted(store: &CookieStore) -> Vec<Cookie> {
    let mut cookies = store.cookies();
    cookies.sort_by(|x, y| x.name.cmp(&y.name));
    cookies
}

fn sorted_pairs(store: &CookieStore) -> Vec<(String, String)> {
    let mut pairs = store.pairs();
    pairs.sort();
    pairs
}

#[test]
fn a_new_store_is_empty() {
    let store = CookieStore::new();
    assert!(store.cookies().is_empty());
    assert!(store.pairs().is_empty());
    assert_eq!(store.header_string(), None);
    assert_eq!(store.cookie_string(), "");
    assert_eq!(store.value_of("ct0"), None);
}

#[test]
fn add_puts_one_cookie_in_place_of_its_namesake() {
    let mut store = CookieStore::new();
    store.add(canonical("a", "1"));
    store.add(Cookie {
        name: "b".to_string(),
        value: "2".to_string(),
        domain: Some(".example.org".to_string()),
        path: None,
        secure: Some(false),
        http_only: None,
    });
    store.add(canonical("a", "3"));
    assert_eq!(
        sorted(&store),
        vec![
            canonical("a", "3"),
            Cookie {
                name: "b".to_string(),
                value: "2".to_string(),
                domain: Some("example.org".to_string()),
                path: None,
                secure: Some(false),
                http_only: None,
            },
        ]
    );
}

#[test]
fn names_are_told_apart_by_case() {
    let mut store = CookieStore::new();
    store.add(canonical("a", "1"));
    store.add(canonical("A", "2"));
    assert_eq!(sorted_pairs(&store), vec![pair("A", "2"), pair("a", "1")]);
}

#[test]
fn value_of_finds_a_cookie_by_name() {
    let mut store = CookieStore::new();
    store.add(canonical("ct0", "csrf"));
    store.add(canonical("other", "x"));
    assert_eq!(store.value_of("ct0"), Some("csrf".to_string()));
    assert_eq!(store.value_of("other"), Some("x".to_string()));
    assert_eq!(store.value_of("CT0"), None);
    assert_eq!(store.value_of(""), None);
}

#[test]
fn ingest_takes_values_in_order_and_passes_over_none() {
    let mut store = CookieStore::new();
    store.ingest(&vec![
        Some("a=1".to_string()),
        None,
        Some("b=2; Max-Age=0".to_string()),
        Some("a=2; Domain=..x.com".to_string()),
        Some("broken".to_string()),
    ]);
    assert_eq!(sorted_pairs(&store), vec![pair("a", "2")]);
    // The parser reports the domain without one leading dot, and so does the
    // store.
    assert_eq!(store.cookies()[0].domain, Some("x.com".to_string()));
}

#[test]
fn ingest_headers_reads_set_cookie_in_any_case_of_the_name() {
    let mut headers = HeaderMap::new();
    headers.append("Set-Cookie", HeaderValue::from_static("a=1"));
    headers.append("set-cookie", HeaderValue::from_static("b=2"));
    headers.append("cookie", HeaderValue::from_static("c=3"));
    let mut store = CookieStore::new();
    store.ingest_headers(&headers);
    assert_eq!(sorted_pairs(&store), vec![pair("a", "1"), pair("b", "2")]);
}

#[test]
fn header_string_joins_pairs_with_semicolon_and_space() {
    let mut store = CookieStore::new();
    store.add(canonical("a", "1"));
    assert_eq!(store.header_string(), Some("a=1".to_string()));
    assert_eq!(store.cookie_string(), "a=1");
    store.add(canonical("b", ""));
    store.add(canonical("c", "x=y"));
    let text = store.cookie_string();
    let mut parts: Vec<&str> = text.split("; ").collect();
    parts.sort();
    assert_eq!(parts, vec!["a=1", "b=", "c=x=y"]);
    assert_eq!(text.len(), "a=1; b=; c=x=y".len());
}

#[test]
fn render_cookie_header_keeps_the_order_of_the_list() {
    assert_eq!(render_cookie_header(&vec![]), "");
    assert_eq!(render_cookie_header(&vec![canonical("b", "2")]), "b=2");
    assert_eq!(
        render_cookie_header(&vec![canonical("b", "2"), canonical("a", "1"), canonical("c", "3")]),
        "b=2; a=1; c=3"
    );
}

#[test]
fn find_value_takes_the_first_of_a_name() {
    let list = vec![canonical("a", "1"), canonical("b", "2"), canonical("a", "3")];
    assert_eq!(find_value(&list, "a"), Some("1".to_string()));
    assert_eq!(find_value(&list, "b"), Some("2".to_string()));
    assert_eq!(find_value(&list, "c"), None);
    assert_eq!(find_value(&vec![], "a"), None);
}

#[test]
fn restore_keeps_the_last_value_of_each_name() {
    let mut store = CookieStore::new();
    store.add(Cookie {
        name: "old".to_string(),
        value: "1".to_string(),
        domain: None,
        path: None,
        secure: None,
        http_only: None,
    });
    store.restore(&vec![pair("a", "1"), pair("b", "2"), pair("a", "3")]);
    assert_eq!(sorted(&store), vec![canonical("a", "3"), canonical("b", "2")]);
    store.restore(&vec![]);
    assert!(store.cookies().is_empty());
}

#[test]
fn pairs_and_restore_keep_names_and_values() {
    let mut store = CookieStore::new();
    store.ingest(&vec![
        Some("ct0=c1; Path=/".to_string()),
        Some("auth_token=t1; Secure".to_string()),
        Some("lang=en".to_string()),
    ]);
    let before = sorted_pairs(&store);
    let mut other = CookieStore::new();
    other.restore(&store.pairs());
    assert_eq!(sorted_pairs(&other), before);
    assert_eq!(
        sorted(&other),
        vec![canonical("auth_token", "t1"), canonical("ct0", "c1"), canonical("lang", "en")]
    );
}

#[test]
fn import_splits_trims_and_rebuilds() {
    let mut store = CookieStore::new();
    store.add(canonical("old", "1"));
    store.import(" a=1;b = 2 ;;nothing; c=\"3\" ;\u{a0}d=4\u{2003}; a=5");
    assert_eq!(
        sorted(&store),
        vec![canonical("a", "5"), canonical("b", "2"), canonical("c", "3"), canonical("d", "4")]
    );
    store.import("");
    assert!(store.cookies().is_empty());
}

#[test]
fn essential_cookies_are_ct0_and_auth_token() {
    let missing = Err(TwitterError::Cookie("Missing essential cookies (ct0 or auth_token)".to_string()));
    let mut store = CookieStore::new();
    assert_eq!(store.check_essential(), missing);
    store.add(canonical("ct0", "a"));
    assert_eq!(store.check_essential(), missing);
    store.add(canonical("auth_token", "b"));
    assert_eq!(store.check_essential(), Ok(()));
    store.restore(&vec![pair("auth_token", "b")]);
    assert_eq!(store.check_essential(), missing);
}
