//! The session of one account: its bearer token, its guest token, and the
//! cookies that it has gathered.

use crate::clock::unix_seconds;
use crate::cookies::{canonical, ingest, lists, views, Cookie, CookieView};
use crate::error::TwitterError;
use crate::flow::{check_not_denied, is_denied, pending, FlowResponse};
use crate::headers::{
    has_room, header_count, header_fields, sets_headers, values_named, visible_texts, with_headers,
};
use crate::installer::{
    activation_headers, check_header_values, csrf_of, header_ready, install_activation_headers,
    install_session_headers, session_header_map, session_headers,
};
use crate::json::{item_views, Json, JsonView};
use crate::persist::{decoded_pairs, encoded_pairs, load_pairs, pairs_of, restored, save_pairs};
use crate::store::{cookie_header, has_essential_cookies, imported_pairs, CookieStore};
use crate::text::{optional_text, split, starts_with};
use vstd::prelude::*;

verus! {

/// Operations that every kind of session offers to the calls made with it.
pub trait TwitterAuth {
    /// Fills `headers` with the headers of a call made with this session.
    fn install_headers(&self, headers: &mut reqwest::header::HeaderMap) -> Result<
        (),
        TwitterError,
    >;

    /// The cookies of this session.
    fn get_cookies(&self) -> Result<Vec<Cookie>, TwitterError>;

    /// Forgets the guest token of this session.
    fn delete_token(&mut self);
}

/// The session of a user account.
pub struct TwitterUserAuth {
    bearer_token: String,
    guest_token: Option<String>,
    cookie_jar: CookieStore,
    created_at: Option<u64>,
}

/// The guest token that the body of an activation response names: the text
/// of its field `guest_token`.
pub open spec fn guest_token_in(body: JsonView) -> Option<Seq<char>> {
    match body.get("guest_token"@) {
        Some(token) => token.as_text(),
        None => None,
    }
}

/// The message of the first error that the body of a response reports:
/// where its field `errors` is an array that is not empty, the text of the
/// field `message` of the first item, or `Unknown error` where the item has
/// no such text.
pub open spec fn first_error(body: JsonView) -> Option<Seq<char>> {
    match body.get("errors"@) {
        Some(errors) => match errors.as_list() {
            Some(items) => if items.len() > 0 {
                match items[0].get("message"@) {
                    Some(message) => match message.as_text() {
                        Some(text) => Some(text),
                        None => Some("Unknown error"@),
                    },
                    None => Some("Unknown error"@),
                }
            } else {
                None
            },
            None => None,
        },
        None => None,
    }
}

/// The `Set-Cookie` values of a response that are visible text, in order,
/// with `None` for every other.
pub open spec fn set_cookie_values(headers: reqwest::header::HeaderMap) -> Seq<Option<Seq<char>>> {
    visible_texts(values_named(header_fields(headers), "set-cookie"@))
}

/// How restoring a store from the text `text` ends, for a session with the
/// tokens `bearer` and `guest`, with the cookies `before` and `after`.
///
/// A text that cannot be read as saved cookies (see `decoded_pairs`) changes
/// nothing and gives a cookie error that begins with `failure`. Otherwise
/// the store is the one that the pairs restore; the result is `Ok` exactly
/// when the session can then fill its headers, else an authentication error
/// with the message `failed to parse header value`.
pub open spec fn restores(
    before: Map<Seq<char>, CookieView>,
    after: Map<Seq<char>, CookieView>,
    bearer: Seq<char>,
    guest: Option<Seq<char>>,
    text: Seq<char>,
    failure: Seq<char>,
    result: Result<(), TwitterError>,
) -> bool {
    match decoded_pairs(text) {
        Some(pairs) => {
            &&& after == restored(pairs)
            &&& match result {
                Ok(_) => header_ready(after, bearer, guest),
                Err(error) => !header_ready(after, bearer, guest) && error.is_auth(
                    "failed to parse header value"@,
                ),
            }
        },
        None => {
            &&& after == before
            &&& result matches Err(error) && error is Cookie && starts_with(error.text(), failure)
        },
    }
}

/// Takes in the response to the call that asks for a guest token: the
/// cookies that its headers set, and the token that its body names.
///
/// With a token in the body (see `guest_token_in`) the token is handed back
/// and put into the store as the cookie `gt`, rebuilt like every cookie.
/// Without one the result is an authentication error with the message
/// `Failed to get guest token`, and only the cookies of the headers are taken
/// in.
pub fn accept_guest_token(
    store: &mut CookieStore,
    raw_headers: &reqwest::header::HeaderMap,
    response: &Json,
) -> (result: Result<String, TwitterError>)
    ensures
        match guest_token_in(response@) {
            Some(token) => {
                &&& result matches Ok(kept) && kept@ == token
                &&& final(store)@ == ingest(old(store)@, set_cookie_values(*raw_headers)).insert(
                    "gt"@,
                    canonical("gt"@, token),
                )
            },
            None => {
                &&& result matches Err(error) && error.is_auth("Failed to get guest token"@)
                &&& final(store)@ == ingest(old(store)@, set_cookie_values(*raw_headers))
            },
        },
{
    store.ingest_headers(raw_headers);
    let token = match response.get("guest_token") {
        Some(value) => match value.as_str() {
            Some(token) => token,
            None => {
                return Err(TwitterError::auth("Failed to get guest token"));
            },
        },
        None => {
            return Err(TwitterError::auth("Failed to get guest token"));
        },
    };
    proof {
        reveal_strlit("x.com");
    }
    store.add(Cookie::canonical("gt".to_owned(), token.to_owned()));
    Ok(token.to_owned())
}

/// Takes in the response to a step of the login flow: the cookies that its
/// headers set, and then the challenges that it holds as pending. If the
/// deny challenge stands anywhere among them, the login is denied: the
/// result is an authentication error with the message `Login denied`.
/// Otherwise the response is handed back.
pub fn accept_flow_response(
    store: &mut CookieStore,
    raw_headers: &reqwest::header::HeaderMap,
    response: FlowResponse,
) -> (result: Result<FlowResponse, TwitterError>)
    ensures
        final(store)@ == ingest(old(store)@, set_cookie_values(*raw_headers)),
        match result {
            Ok(same) => same == response && !is_denied(pending(response)),
            Err(error) => is_denied(pending(response)) && error.is_auth("Login denied"@),
        },
{
    store.ingest_headers(raw_headers);
    match check_not_denied(&response) {
        Ok(_) => Ok(response),
        Err(error) => Err(error),
    }
}

/// Restores a store from the saved form `text`, in place of all that it
/// held, for a session with the tokens `bearer` and `guest`: see `restores`.
pub fn restore_cookies(
    store: &mut CookieStore,
    bearer: &str,
    guest: Option<&str>,
    text: &str,
    failure: &str,
) -> (result: Result<(), TwitterError>)
    ensures
        restores(
            old(store)@,
            final(store)@,
            bearer@,
            optional_text(guest),
            text@,
            failure@,
            result,
        ),
{
    match load_pairs(text, failure) {
        Ok(pairs) => {
            store.restore(&pairs);
            check_header_values(store, bearer, guest)
        },
        Err(error) => Err(error),
    }
}

/// Restores a store from saved cookies given as JSON text: see `restores`,
/// with `Failed to parse cookie JSON: ` as the beginning of the message for
/// a text that cannot be read.
pub fn set_cookies(
    store: &mut CookieStore,
    bearer: &str,
    guest: Option<&str>,
    json_str: &str,
) -> (result: Result<(), TwitterError>)
    ensures
        restores(
            old(store)@,
            final(store)@,
            bearer@,
            optional_text(guest),
            json_str@,
            "Failed to parse cookie JSON: "@,
            result,
        ),
{
    restore_cookies(store, bearer, guest, json_str, "Failed to parse cookie JSON: ")
}

/// Restores a store from the contents of a cookie file: see `restores`,
/// with `Failed to parse cookie file: ` as the beginning of the message for
/// contents that cannot be read.
pub fn load_cookies(
    store: &mut CookieStore,
    bearer: &str,
    guest: Option<&str>,
    contents: &str,
) -> (result: Result<(), TwitterError>)
    ensures
        restores(
            old(store)@,
            final(store)@,
            bearer@,
            optional_text(guest),
            contents@,
            "Failed to parse cookie file: "@,
            result,
        ),
{
    restore_cookies(store, bearer, guest, contents, "Failed to parse cookie file: ")
}

/// Takes the cookies of a cookie string, such as `a=1; b=2`, in place of all
/// that the store held: the string is split at `;`, each segment trimmed
/// and parsed, and each cookie rebuilt from its name and value.
///
/// The result is `Ok` exactly when the new store holds both `ct0` and
/// `auth_token`; else it is a cookie error, and the store holds what the
/// string gave.
pub fn import_cookie_string(store: &mut CookieStore, cookie_string: &str) -> (result: Result<
    (),
    TwitterError,
>)
    ensures
        final(store)@ == restored(imported_pairs(split(cookie_string@, ';'))),
        match result {
            Ok(_) => has_essential_cookies(final(store)@),
            Err(error) => !has_essential_cookies(final(store)@) && error.is_cookie(
                "Missing essential cookies (ct0 or auth_token)"@,
            ),
        },
{
    store.import(cookie_string);
    store.check_essential()
}

/// The cookies of a store in their saved form: the JSON text of the (name,
/// value) pairs of the cookies, listed in some order (see `encoded_pairs`).
pub fn save_cookies(store: &CookieStore) -> (result: Result<String, TwitterError>)
    ensures
        result matches Ok(text) && exists|order: Seq<CookieView>| #[trigger]
            lists(order, store@) && text@ == encoded_pairs(pairs_of(order)),
{
    let pairs = store.pairs();
    save_pairs(&pairs)
}

impl TwitterUserAuth {
    /// The bearer token of the session.
    pub closed spec fn bearer(&self) -> Seq<char> {
        self.bearer_token@
    }

    /// The guest token of the session, once one was acquired.
    pub closed spec fn guest(&self) -> Option<Seq<char>> {
        match self.guest_token {
            Some(token) => Some(token@),
            None => None,
        }
    }

    /// The cookies of the session, by name.
    pub closed spec fn cookies(&self) -> Map<Seq<char>, CookieView> {
        self.cookie_jar@
    }

    /// When the guest token was acquired, in seconds since the epoch.
    pub closed spec fn created(&self) -> Option<u64> {
        self.created_at
    }

    /// The session differs from `before` in its cookies at most.
    pub open spec fn same_tokens(&self, before: &TwitterUserAuth) -> bool {
        &&& self.bearer() == before.bearer()
        &&& self.guest() == before.guest()
        &&& self.created() == before.created()
    }

    /// A session with the given bearer token, without guest token and
    /// without cookies.
    pub fn new(bearer_token: String) -> (result: Result<TwitterUserAuth, TwitterError>)
        ensures
            result matches Ok(auth) && auth.bearer() == bearer_token@ && auth.guest() is None
                && auth.created() is None && auth.cookies() == (Map::<
                Seq<char>,
                CookieView,
            >::empty()),
    {
        Ok(
            TwitterUserAuth {
                bearer_token,
                guest_token: None,
                cookie_jar: CookieStore::new(),
                created_at: None,
            },
        )
    }

    /// The bearer token of the session.
    pub fn bearer_token(&self) -> (token: &str)
        ensures
            token@ == self.bearer(),
    {
        self.bearer_token.as_str()
    }

    /// The guest token of the session, once one was acquired.
    pub fn guest_token(&self) -> (token: Option<&str>)
        ensures
            optional_text(token) == self.guest(),
    {
        match &self.guest_token {
            Some(token) => Some(token.as_str()),
            None => None,
        }
    }

    /// When the guest token was acquired, in seconds since the epoch.
    pub fn created_at(&self) -> (time: Option<u64>)
        ensures
            time == self.created(),
    {
        self.created_at
    }

    /// The cookie store of the session.
    pub fn cookie_store(&self) -> (store: &CookieStore)
        ensures
            store@ == self.cookies(),
    {
        &self.cookie_jar
    }

    /// The `Cookie` header for the session's cookies: `None` without
    /// cookies, else the cookies in some order, each once, as
    /// `name=value` with `; ` between them.
    pub fn serialized_cookie_header(&self) -> (header: Option<String>)
        ensures
            match header {
                Some(text) => exists|order: Seq<CookieView>|
                    order.len() > 0 && #[trigger] lists(order, self.cookies()) && text@
                        == cookie_header(order),
                None => self.cookies().dom() =~= Set::<Seq<char>>::empty(),
            },
    {
        assert(self.cookies() == self.cookie_jar@);
        self.cookie_jar.header_string()
    }

    /// The session's cookies as one text: the cookies in some order, each
    /// once, as `name=value` with `; ` between them; empty without cookies.
    pub fn get_cookie_string(&self) -> (result: Result<String, TwitterError>)
        ensures
            result matches Ok(text) && exists|order: Seq<CookieView>| #[trigger]
                lists(order, self.cookies()) && text@ == cookie_header(order),
    {
        assert(self.cookies() == self.cookie_jar@);
        Ok(self.cookie_jar.cookie_string())
    }

    /// Takes in the cookies that the `Set-Cookie` headers of a response
    /// set, in the headers' order. A value that asks for a removal (see
    /// `is_deletion_directive`) is passed over, as is one that is no
    /// visible text and one that the cookie parser refuses; every other
    /// puts its cookie in the store, in place of any cookie of that name.
    pub fn store_cookies_from_headers(&mut self, headers: &reqwest::header::HeaderMap)
        ensures
            final(self).cookies() == ingest(old(self).cookies(), set_cookie_values(*headers)),
            final(self).same_tokens(old(self)),
    {
        self.cookie_jar.ingest_headers(headers);
    }

    /// Takes in the cookies that the headers of a response set, as
    /// `store_cookies_from_headers` does.
    pub fn update_cookies(&mut self, headers: &reqwest::header::HeaderMap) -> (result: Result<
        (),
        TwitterError,
    >)
        ensures
            result is Ok,
            final(self).cookies() == ingest(old(self).cookies(), set_cookie_values(*headers)),
            final(self).same_tokens(old(self)),
    {
        self.store_cookies_from_headers(headers);
        Ok(())
    }

    /// The session's cookies in their saved form: the JSON text of the
    /// (name, value) pairs of the cookies, listed in some order (see
    /// `encoded_pairs`).
    pub fn serialize_cookies(&self) -> (result: Result<String, TwitterError>)
        ensures
            result matches Ok(text) && exists|order: Seq<CookieView>| #[trigger]
                lists(order, self.cookies()) && text@ == encoded_pairs(pairs_of(order)),
    {
        assert(self.cookies() == self.cookie_jar@);
        save_cookies(&self.cookie_jar)
    }

    /// Restores the cookies from their saved form, in place of all that the
    /// session held: see `restores`, with `Failed to parse cookie JSON: `
    /// as the beginning of the message for a text that cannot be read.
    pub fn set_cookies(&mut self, json_str: &str) -> (result: Result<(), TwitterError>)
        ensures
            final(self).same_tokens(old(self)),
            restores(
                old(self).cookies(),
                final(self).cookies(),
                old(self).bearer(),
                old(self).guest(),
                json_str@,
                "Failed to parse cookie JSON: "@,
                result,
            ),
    {
        set_cookies(
            &mut self.cookie_jar,
            self.bearer_token.as_str(),
            optional_str(&self.guest_token),
            json_str,
        )
    }

    /// Restores the cookies from the contents of a cookie file, in place of
    /// all that the session held: see `restores`, with
    /// `Failed to parse cookie file: ` as the beginning of the message for
    /// contents that cannot be read.
    pub fn load_cookies(&mut self, contents: &str) -> (result: Result<(), TwitterError>)
        ensures
            final(self).same_tokens(old(self)),
            restores(
                old(self).cookies(),
                final(self).cookies(),
                old(self).bearer(),
                old(self).guest(),
                contents@,
                "Failed to parse cookie file: "@,
                result,
            ),
    {
        load_cookies(
            &mut self.cookie_jar,
            self.bearer_token.as_str(),
            optional_str(&self.guest_token),
            contents,
        )
    }

    /// Takes the cookies of a cookie string in place of all that the
    /// session held, as `import_cookie_string` does.
    pub fn set_from_cookie_string(&mut self, cookie_string: &str) -> (result: Result<
        (),
        TwitterError,
    >)
        ensures
            final(self).cookies() == restored(imported_pairs(split(cookie_string@, ';'))),
            final(self).same_tokens(old(self)),
            match result {
                Ok(_) => has_essential_cookies(final(self).cookies()),
                Err(error) => !has_essential_cookies(final(self).cookies()) && error.is_cookie(
                    "Missing essential cookies (ct0 or auth_token)"@,
                ),
            },
    {
        import_cookie_string(&mut self.cookie_jar, cookie_string)
    }

    /// A new header map with the headers of a call made with the session,
    /// the cookies listed in some order. The result is an error exactly
    /// when the bearer token, the guest token, or the name or value of a
    /// cookie cannot stand in a header value.
    pub fn headers(&self) -> (result: Result<reqwest::header::HeaderMap, TwitterError>)
        ensures
            match result {
                Ok(headers) => header_ready(self.cookies(), self.bearer(), self.guest())
                    && exists|order: Seq<CookieView>| #[trigger]
                    lists(order, self.cookies()) && header_fields(headers) == with_headers(
                        Map::empty(),
                        session_headers(
                            order,
                            csrf_of(self.cookies()),
                            self.bearer(),
                            self.guest(),
                        ),
                    ),
                Err(error) => !header_ready(self.cookies(), self.bearer(), self.guest())
                    && error.is_auth("failed to parse header value"@),
            },
    {
        assert(self.cookies() == self.cookie_jar@);
        session_header_map(&self.cookie_jar, self.bearer_token.as_str(), self.guest_token())
    }

    /// Sets the headers of the call that asks for a guest token in
    /// `headers`: `Authorization`, then `Cookie` if the session has cookies.
    /// How this can end is said by `sets_headers`. It ends well exactly when
    /// the bearer token and the name and value of every cookie can stand in
    /// a header value, if the map has room for two headers.
    pub fn install_activation_headers(&self, headers: &mut reqwest::header::HeaderMap) -> (result:
        Result<(), TwitterError>)
        ensures
            exists|order: Seq<CookieView>| #[trigger]
                lists(order, self.cookies()) && sets_headers(
                    result,
                    header_fields(*old(headers)),
                    header_fields(*final(headers)),
                    activation_headers(order, self.bearer()),
                ),
            !header_ready(self.cookies(), self.bearer(), None) ==> result is Err,
            header_ready(self.cookies(), self.bearer(), None) && has_room(
                header_count(*old(headers)),
                2,
            ) ==> result is Ok,
    {
        assert(self.cookies() == self.cookie_jar@);
        install_activation_headers(&self.cookie_jar, self.bearer_token.as_str(), headers)
    }

    /// Keeps a guest token, with the time at which it was acquired: `None`
    /// where the clock could not be read.
    pub fn keep_guest_token(&mut self, token: String, now: Option<u64>)
        ensures
            final(self).guest() == Some(token@),
            final(self).created() == now,
            final(self).bearer() == old(self).bearer(),
            final(self).cookies() == old(self).cookies(),
    {
        self.guest_token = Some(token);
        self.created_at = now;
    }

    /// Takes in the response to the call that asks for a guest token, as
    /// `accept_guest_token` does, and keeps the token with the present time.
    /// Where the clock stands before the epoch, the token is kept without a
    /// time. Without a token in the body, the tokens of the session stay as
    /// they were.
    pub fn update_guest_token(
        &mut self,
        raw_headers: &reqwest::header::HeaderMap,
        response: &Json,
    ) -> (result: Result<(), TwitterError>)
        ensures
            final(self).bearer() == old(self).bearer(),
            match guest_token_in(response@) {
                Some(token) => {
                    &&& result is Ok
                    &&& final(self).guest() == Some(token)
                    &&& final(self).cookies() == ingest(
                        old(self).cookies(),
                        set_cookie_values(*raw_headers),
                    ).insert("gt"@, canonical("gt"@, token))
                },
                None => {
                    &&& result matches Err(error) && error.is_auth("Failed to get guest token"@)
                    &&& final(self).guest() == old(self).guest()
                    &&& final(self).created() == old(self).created()
                    &&& final(self).cookies() == ingest(
                        old(self).cookies(),
                        set_cookie_values(*raw_headers),
                    )
                },
            },
    {
        match accept_guest_token(&mut self.cookie_jar, raw_headers, response) {
            Ok(token) => {
                self.keep_guest_token(token, unix_seconds());
                Ok(())
            },
            Err(error) => Err(error),
        }
    }

    /// Takes in the response to a step of the login flow, as
    /// `accept_flow_response` does.
    pub fn complete_flow_task(
        &mut self,
        raw_headers: &reqwest::header::HeaderMap,
        response: FlowResponse,
    ) -> (result: Result<FlowResponse, TwitterError>)
        ensures
            final(self).cookies() == ingest(old(self).cookies(), set_cookie_values(*raw_headers)),
            final(self).same_tokens(old(self)),
            match result {
                Ok(same) => same == response && !is_denied(pending(response)),
                Err(error) => is_denied(pending(response)) && error.is_auth("Login denied"@),
            },
    {
        accept_flow_response(&mut self.cookie_jar, raw_headers, response)
    }

    /// Whether the response to the liveness check shows a live login: `true`
    /// unless the body reports an error (see `first_error`), which becomes
    /// an authentication error with the message of the first error.
    pub fn is_logged_in(response: &Json) -> (result: Result<bool, TwitterError>)
        ensures
            match first_error(response@) {
                Some(message) => result matches Err(error) && error.is_auth(message),
                None => result == Ok::<bool, TwitterError>(true),
            },
    {
        if let Some(errors) = response.get("errors") {
            if let Some(items) = errors.as_array() {
                if items.len() > 0 {
                    assert(item_views(items@)[0] == items@[0]@);
                    let message = match items[0].get("message") {
                        Some(message) => match message.as_str() {
                            Some(text) => text,
                            None => "Unknown error",
                        },
                        None => "Unknown error",
                    };
                    return Err(TwitterError::auth(message));
                }
            }
        }
        Ok(true)
    }
}

/// The text of an optional string, as a slice.
fn optional_str(text: &Option<String>) -> (slice: Option<&str>)
    ensures
        optional_text(slice) == match *text {
            Some(owned) => Some(owned@),
            None => None,
        },
{
    match text {
        Some(owned) => Some(owned.as_str()),
        None => None,
    }
}

impl TwitterAuth for TwitterUserAuth {
    /// Sets the headers of a call made with the session in `headers`, in
    /// the order of `session_headers`, each in place of any header of that
    /// name. The cookies are listed in some order.
    ///
    /// How this can end is said by `sets_headers`. It ends in an error if
    /// the bearer token, the guest token, or the name or value of a cookie
    /// cannot stand in a header value. If they all can, and the map has
    /// room for the 22 headers that a session sets at most, it ends well.
    fn install_headers(&self, headers: &mut reqwest::header::HeaderMap) -> (result: Result<
        (),
        TwitterError,
    >)
        ensures
            exists|order: Seq<CookieView>| #[trigger]
                lists(order, self.cookies()) && sets_headers(
                    result,
                    header_fields(*old(headers)),
                    header_fields(*final(headers)),
                    session_headers(order, csrf_of(self.cookies()), self.bearer(), self.guest()),
                ),
            !header_ready(self.cookies(), self.bearer(), self.guest()) ==> result is Err,
            header_ready(self.cookies(), self.bearer(), self.guest()) && has_room(
                header_count(*old(headers)),
                22,
            ) ==> result is Ok,
    {
        assert(self.cookies() == self.cookie_jar@);
        install_session_headers(
            &self.cookie_jar,
            self.bearer_token.as_str(),
            self.guest_token(),
            headers,
        )
    }

    /// The cookies of the session, each once, in no fixed order.
    fn get_cookies(&self) -> (result: Result<Vec<Cookie>, TwitterError>)
        ensures
            result matches Ok(list) && lists(views(list@), self.cookies()),
    {
        Ok(self.cookie_jar.cookies())
    }

    /// Forgets the guest token and the time it was acquired; the bearer
    /// token and the cookies stay.
    fn delete_token(&mut self)
        ensures
            final(self).guest() is None,
            final(self).created() is None,
            final(self).bearer() == old(self).bearer(),
            final(self).cookies() == old(self).cookies(),
    {
        self.guest_token = None;
        self.created_at = None;
    }
}

} // verus!
