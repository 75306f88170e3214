use reqwest::header::{HeaderMap, HeaderValue};
use twitter_auth::auth::{
    accept_flow_response, accept_guest_token, import_cookie_string, load_cookies, save_cookies,
    set_cookies, TwitterAuth, TwitterUserAuth,
};
use twitter_auth::store::CookieStore;
use twitter_auth::cookies::Cookie;
use twitter_auth::error::TwitterError;
use twitter_auth::flow::{FlowResponse, Subtask};
use twitter_auth::json::Json;

fn session() -> TwitterUserAuth {
    TwitterUserAuth::new("bearer".to_string()).unwrap()
}

fn set_cookie_headers(values: &[&str]) -> HeaderMap {
    let mut headers = HeaderMap::new();
    for value in values {
        headers.append("set-cookie", HeaderValue::from_str(value).unwrap());
    }
    headers
}

fn sorted_pairs(auth: &TwitterUserAuth) -> Vec<(String, String)> {
    let mut pairs = auth.cookie_store().pairs();
    pairs.sort();
    pairs
}

fn pair(name: &str, value: &str) -> (String, String) {
    (name.to_string(), value.to_string())
}

fn text(s: &str) -> Json {
    Json::Text(s.to_string())
}

fn object(fields: Vec<(&str, Json)>) -> Json {
    Json::Object(fields.into_iter().map(|(k, v)| (k.to_string(), v)).collect())
}

fn canonical(name: &str, value: &str) -> Cookie {
    Cookie {
        name: name.to_string(),
        value: value.to_string(),
        domain: Some("x.com".to_string()),
        path: Some("/".to_string()),
        secure: Some(true),
        http_only: Some(true),
    }
}

fn header<'a>(headers: &'a HeaderMap, name: &str) -> Option<&'a str> {
    headers.get(name).map(|v| v.to_str().unwrap())
}

#[test]
fn new_session_holds_only_the_bearer_token() {
    let auth = session();
    assert_eq!(auth.bearer_token(), "bearer");
    assert_eq!(auth.guest_token(), None);
    assert_eq!(auth.created_at(), None);
    assert!(auth.get_cookies().unwrap().is_empty());
}

#[test]
fn saved_cookies_are_a_json_array_of_pairs() {
    let mut auth = session();
    assert_eq!(auth.serialize_cookies(), Ok("[]".to_string()));
    auth.store_cookies_from_headers(&set_cookie_headers(&["a=1"]));
    assert_eq!(auth.serialize_cookies(), Ok("[\n  [\n    \"a\",\n    \"1\"\n  ]\n]".to_string()));
    auth.store_cookies_from_headers(&set_cookie_headers(&["q=\"x y\""]));
    let saved = auth.serialize_cookies().unwrap();
    let mut read: Vec<(String, String)> = serde_json::from_str(&saved).unwrap();
    read.sort();
    assert_eq!(read, vec![pair("a", "1"), pair("q", "x y")]);
}

#[test]
fn saving_and_restoring_keeps_the_pairs() {
    let mut auth = session();
    auth.store_cookies_from_headers(&set_cookie_headers(&[
        "ct0=c\\sr\"f; Path=/; Secure",
        "auth_token=t0k; Domain=.x.com",
        "lang=en",
        "odd=a=b=c",
    ]));
    let before = sorted_pairs(&auth);
    assert_eq!(before.len(), 4);
    let saved = auth.serialize_cookies().unwrap();

    let mut restored = session();
    restored.store_cookies_from_headers(&set_cookie_headers(&["stale=1"]));
    assert_eq!(restored.set_cookies(&saved), Ok(()));
    assert_eq!(sorted_pairs(&restored), before);

    let mut loaded = session();
    assert_eq!(loaded.load_cookies(&saved), Ok(()));
    assert_eq!(sorted_pairs(&loaded), before);
}

#[test]
fn restoring_replaces_the_store_and_rebuilds_every_cookie() {
    let mut auth = session();
    auth.store_cookies_from_headers(&set_cookie_headers(&["old=1; Path=/old"]));
    assert_eq!(auth.set_cookies("[[\"a\",\"1\"],[\"b\",\"2\"],[\"a\",\"3\"]]"), Ok(()));
    assert_eq!(sorted_pairs(&auth), vec![pair("a", "3"), pair("b", "2")]);
    let mut cookies = auth.get_cookies().unwrap();
    cookies.sort_by(|x, y| x.name.cmp(&y.name));
    assert_eq!(cookies, vec![canonical("a", "3"), canonical("b", "2")]);
    assert_eq!(auth.set_cookies("[]"), Ok(()));
    assert!(auth.cookie_store().pairs().is_empty());
}

#[test]
fn text_that_is_no_list_of_pairs_is_refused_and_changes_nothing() {
    for bad in ["", "not json", "{}", "[[\"a\"]]", "[[\"a\",1]]", "[[\"a\",\"1\",\"2\"]]", "[\"a\"]"] {
        let mut auth = session();
        auth.store_cookies_from_headers(&set_cookie_headers(&["kept=1"]));
        match auth.set_cookies(bad) {
            Err(TwitterError::Cookie(message)) => {
                assert!(message.starts_with("Failed to parse cookie JSON: "), "{}", message);
                assert!(message.len() > "Failed to parse cookie JSON: ".len());
            }
            other => panic!("{:?}: unexpected {:?}", bad, other),
        }
        assert_eq!(sorted_pairs(&auth), vec![pair("kept", "1")]);
        match auth.load_cookies(bad) {
            Err(TwitterError::Cookie(message)) => {
                assert!(message.starts_with("Failed to parse cookie file: "), "{}", message)
            }
            other => panic!("{:?}: unexpected {:?}", bad, other),
        }
        assert_eq!(sorted_pairs(&auth), vec![pair("kept", "1")]);
    }
}

#[test]
fn restored_cookies_that_cannot_stand_in_a_header_fail_after_the_restore() {
    let mut auth = session();
    assert_eq!(
        auth.set_cookies("[[\"a\",\"line\\nbreak\"]]"),
        Err(TwitterError::Auth("failed to parse header value".to_string()))
    );
    assert_eq!(sorted_pairs(&auth), vec![pair("a", "line\nbreak")]);
}

#[test]
fn import_needs_both_essential_cookies() {
    let missing = TwitterError::Cookie("Missing essential cookies (ct0 or auth_token)".to_string());
    for text in ["", "ct0=a", "auth_token=b", "ct0=a; other=c", "CT0=a; AUTH_TOKEN=b", "ct0; auth_token"] {
        let mut auth = session();
        assert_eq!(auth.set_from_cookie_string(text), Err(missing.clone()), "{:?}", text);
    }
    for text in ["ct0=a; auth_token=b", "auth_token=b;ct0=a", " x=1 ;  ct0 = a ;auth_token=b; "] {
        let mut auth = session();
        assert_eq!(auth.set_from_cookie_string(text), Ok(()), "{:?}", text);
    }
}

#[test]
fn import_replaces_the_store_even_when_it_fails() {
    let mut auth = session();
    auth.store_cookies_from_headers(&set_cookie_headers(&["old=1"]));
    assert!(auth.set_from_cookie_string("ct0=a; x=1").is_err());
    assert_eq!(sorted_pairs(&auth), vec![pair("ct0", "a"), pair("x", "1")]);
}

#[test]
fn import_trims_segments_and_rebuilds_every_cookie() {
    let mut auth = session();
    assert_eq!(
        auth.set_from_cookie_string("  ct0=abc ;auth_token = \"quoted\" ; skipped ; =nameless; k=v=w; ct0=last"),
        Ok(())
    );
    assert_eq!(
        sorted_pairs(&auth),
        vec![pair("auth_token", "quoted"), pair("ct0", "last"), pair("k", "v=w")]
    );
    let mut cookies = auth.get_cookies().unwrap();
    cookies.sort_by(|x, y| x.name.cmp(&y.name));
    assert_eq!(
        cookies,
        vec![canonical("auth_token", "quoted"), canonical("ct0", "last"), canonical("k", "v=w")]
    );
}

#[test]
fn headers_after_an_import_carry_both_essential_cookies() {
    let mut auth = session();
    assert_eq!(auth.set_from_cookie_string("auth_token=tok123; ct0=csrf456"), Ok(()));
    let mut headers = HeaderMap::new();
    assert_eq!(auth.install_headers(&mut headers), Ok(()));
    assert_eq!(header(&headers, "x-csrf-token"), Some("csrf456"));
    let cookie = header(&headers, "cookie").unwrap();
    assert!(cookie.contains("ct0=csrf456"), "{}", cookie);
    assert!(cookie.contains("auth_token=tok123"), "{}", cookie);
    assert_eq!(header(&headers, "authorization"), Some("Bearer bearer"));
}

#[test]
fn guest_token_is_kept_with_its_cookie_and_time() {
    let mut auth = session();
    let body = object(vec![("guest_token", text("1234567890"))]);
    assert_eq!(auth.update_guest_token(&set_cookie_headers(&["guest_id=v1; Path=/"]), &body), Ok(()));
    assert_eq!(auth.guest_token(), Some("1234567890"));
    let created = auth.created_at().unwrap();
    assert!(created > 1_600_000_000, "{}", created);
    let mut cookies = auth.get_cookies().unwrap();
    cookies.sort_by(|x, y| x.name.cmp(&y.name));
    assert_eq!(cookies.len(), 2);
    assert_eq!(cookies[0], canonical("gt", "1234567890"));
    assert_eq!((cookies[1].name.as_str(), cookies[1].value.as_str()), ("guest_id", "v1"));
}

#[test]
fn a_response_without_guest_token_is_an_error() {
    let error = TwitterError::Auth("Failed to get guest token".to_string());
    for body in [
        object(vec![]),
        object(vec![("guest_token", Json::Number(12))]),
        object(vec![("guest_token", Json::Null)]),
        object(vec![("token", text("x"))]),
        Json::List(vec![text("guest_token")]),
        text("guest_token"),
        Json::Null,
    ] {
        let mut auth = session();
        assert_eq!(auth.update_guest_token(&set_cookie_headers(&["seen=1"]), &body), Err(error.clone()));
        assert_eq!(auth.guest_token(), None);
        assert_eq!(auth.created_at(), None);
        assert_eq!(sorted_pairs(&auth), vec![pair("seen", "1")]);
    }
}

#[test]
fn delete_token_forgets_token_and_time_only() {
    let mut auth = session();
    auth.update_guest_token(&HeaderMap::new(), &object(vec![("guest_token", text("g"))])).unwrap();
    auth.delete_token();
    assert_eq!(auth.guest_token(), None);
    assert_eq!(auth.created_at(), None);
    assert_eq!(auth.bearer_token(), "bearer");
    assert_eq!(sorted_pairs(&auth), vec![pair("gt", "g")]);
}

#[test]
fn flow_responses_are_taken_in_and_checked_for_denial() {
    let mut auth = session();
    let ok = FlowResponse {
        flow_token: "t1".to_string(),
        subtasks: Some(vec![Subtask { subtask_id: "LoginEnterPassword".to_string() }]),
    };
    assert_eq!(auth.complete_flow_task(&set_cookie_headers(&["att=1"]), ok.clone()), Ok(ok));
    let denied = FlowResponse {
        flow_token: "t2".to_string(),
        subtasks: Some(vec![
            Subtask { subtask_id: "LoginEnterPassword".to_string() },
            Subtask { subtask_id: "DenyLoginSubtask".to_string() },
        ]),
    };
    assert_eq!(
        auth.complete_flow_task(&set_cookie_headers(&["deny=1"]), denied),
        Err(TwitterError::Auth("Login denied".to_string()))
    );
    assert_eq!(sorted_pairs(&auth), vec![pair("att", "1"), pair("deny", "1")]);
}

#[test]
fn liveness_check_reports_the_first_error() {
    let body = object(vec![(
        "errors",
        Json::List(vec![
            object(vec![("code", Json::Number(32)), ("message", text("Could not authenticate you."))]),
            object(vec![("message", text("second"))]),
        ]),
    )]);
    assert_eq!(
        TwitterUserAuth::is_logged_in(&body),
        Err(TwitterError::Auth("Could not authenticate you.".to_string()))
    );
}

#[test]
fn liveness_check_names_an_error_without_message() {
    let unknown = Err(TwitterError::Auth("Unknown error".to_string()));
    for first in [object(vec![]), object(vec![("message", Json::Number(1))]), text("oops"), Json::Null] {
        let body = object(vec![("errors", Json::List(vec![first]))]);
        assert_eq!(TwitterUserAuth::is_logged_in(&body), unknown);
    }
}

#[test]
fn liveness_check_passes_without_errors() {
    for body in [
        object(vec![("id", Json::Number(1))]),
        object(vec![("errors", Json::List(vec![]))]),
        object(vec![("errors", text("none"))]),
        object(vec![("errors", object(vec![("message", text("x"))]))]),
        Json::List(vec![]),
        Json::Null,
    ] {
        assert_eq!(TwitterUserAuth::is_logged_in(&body), Ok(true));
    }
}

#[test]
fn keep_guest_token_keeps_token_and_time() {
    let mut auth = session();
    auth.keep_guest_token("g1".to_string(), Some(1_700_000_000));
    assert_eq!(auth.guest_token(), Some("g1"));
    assert_eq!(auth.created_at(), Some(1_700_000_000));
    auth.keep_guest_token("g2".to_string(), None);
    assert_eq!(auth.guest_token(), Some("g2"));
    assert_eq!(auth.created_at(), None);
    assert!(auth.get_cookies().unwrap().is_empty());
}

#[test]
fn a_store_takes_in_a_guest_token_response() {
    let mut store = CookieStore::new();
    let body = object(vec![("guest_token", text("777"))]);
    assert_eq!(
        accept_guest_token(&mut store, &set_cookie_headers(&["seen=1"]), &body),
        Ok("777".to_string())
    );
    assert_eq!(store.value_of("gt"), Some("777".to_string()));
    assert_eq!(store.value_of("seen"), Some("1".to_string()));
    let mut store = CookieStore::new();
    assert_eq!(
        accept_guest_token(&mut store, &set_cookie_headers(&["seen=1"]), &object(vec![])),
        Err(TwitterError::Auth("Failed to get guest token".to_string()))
    );
    assert_eq!(store.value_of("gt"), None);
    assert_eq!(store.value_of("seen"), Some("1".to_string()));
}

#[test]
fn a_store_takes_in_a_flow_response() {
    let mut store = CookieStore::new();
    let denied = FlowResponse {
        flow_token: "t".to_string(),
        subtasks: Some(vec![
            Subtask { subtask_id: "LoginAcid".to_string() },
            Subtask { subtask_id: "DenyLoginSubtask".to_string() },
        ]),
    };
    assert_eq!(
        accept_flow_response(&mut store, &set_cookie_headers(&["a=1"]), denied),
        Err(TwitterError::Auth("Login denied".to_string()))
    );
    assert_eq!(store.value_of("a"), Some("1".to_string()));
    let open = FlowResponse { flow_token: "t".to_string(), subtasks: None };
    assert_eq!(accept_flow_response(&mut store, &HeaderMap::new(), open.clone()), Ok(open));
}

#[test]
fn a_store_is_saved_restored_and_imported() {
    let mut store = CookieStore::new();
    assert_eq!(import_cookie_string(&mut store, "ct0=a; auth_token=b"), Ok(()));
    let saved = save_cookies(&store).unwrap();
    let mut other = CookieStore::new();
    assert_eq!(set_cookies(&mut other, "bearer", None, &saved), Ok(()));
    assert_eq!(other.value_of("ct0"), Some("a".to_string()));
    assert_eq!(other.value_of("auth_token"), Some("b".to_string()));
    let mut third = CookieStore::new();
    assert_eq!(load_cookies(&mut third, "bearer", Some("g"), &saved), Ok(()));
    assert_eq!(third.pairs().len(), 2);
    assert_eq!(
        load_cookies(&mut third, "bearer", Some("bad\nguest"), &saved),
        Err(TwitterError::Auth("failed to parse header value".to_string()))
    );
    match load_cookies(&mut third, "bearer", None, "nonsense") {
        Err(TwitterError::Cookie(message)) => {
            assert!(message.starts_with("Failed to parse cookie file: "), "{}", message)
        }
        other => panic!("unexpected: {:?}", other),
    }
    match set_cookies(&mut third, "bearer", None, "nonsense") {
        Err(TwitterError::Cookie(message)) => {
            assert!(message.starts_with("Failed to parse cookie JSON: "), "{}", message)
        }
        other => panic!("unexpected: {:?}", other),
    }
    assert_eq!(import_cookie_string(&mut third, "ct0=a"), Err(TwitterError::Cookie(
        "Missing essential cookies (ct0 or auth_token)".to_string()
    )));
}
