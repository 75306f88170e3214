//! The headers of a call made with a session: the bearer token, the
//! cookies, the tokens mirrored from them, and the static headers of the
//! browser that the client stands for.

use crate::cookies::{lists, views, CookieView};
use crate::error::TwitterError;
use crate::headers::{
    has_room, header_count, header_fields, is_header_text, is_valid_header_text, is_value_char,
    empty_headers, lemma_names_valid_concat, lemma_with_headers_last,
    lemma_values_valid_concat, lemma_with_headers_concat, lemma_with_headers_misses, misses,
    names_valid, pair_views, set_headers, sets_headers, values_named, values_valid, with_headers,
};
use crate::store::{
    cookie_header, find_value, has_essential_cookies, lemma_cookie_header_mentions,
    lemma_listing_finds, pair_text, render_cookie_header, CookieStore,
};
use crate::text::{contains, lower_char, lowercase, optional_text};
use vstd::prelude::*;
use vstd::utf8::encode_utf8;

verus! {

/// The headers that every call carries, whatever the session holds: those
/// of the browser that the client stands for.
pub open spec fn static_headers() -> Seq<(Seq<char>, Seq<char>)> {
    seq![
        ("accept"@, "*/*"@),
        ("accept-language"@, "en-US,en;q=0.9"@),
        ("content-type"@, "application/json"@),
        ("cache-control"@, "no-cache"@),
        ("origin"@, "https://x.com"@),
        ("pragma"@, "no-cache"@),
        ("priority"@, "u=1, i"@),
        ("referer"@, "https://x.com/"@),
        (
            "sec-ch-ua"@,
            "\"Google Chrome\";v=\"135\", \"Not-A.Brand\";v=\"8\", \"Chromium\";v=\"135\""@,
        ),
        ("sec-ch-ua-mobile"@, "?0"@),
        ("sec-ch-ua-platform"@, "\"Windows\""@),
        ("sec-fetch-dest"@, "empty"@),
        ("sec-fetch-mode"@, "cors"@),
        ("sec-fetch-site"@, "same-origin"@),
        (
            "user-agent"@,
            "Mozilla/5.0 (Windows NT 10.0; Win64; x64) AppleWebKit/537.36 (KHTML, like Gecko) Chrome/135.0.0.0 Safari/537.36"@,
        ),
        ("x-twitter-active-user"@, "yes"@),
        ("x-twitter-client-language"@, "en"@),
        ("x-twitter-auth-type"@, "OAuth2Client"@),
    ]
}

fn entry(name: &str, value: &str) -> (pair: (String, String))
    ensures
        pair.0@ == name@,
        pair.1@ == value@,
{
    (name.to_owned(), value.to_owned())
}

/// The headers that every call carries, in the order in which they are set.
pub fn static_header_table() -> (table: Vec<(String, String)>)
    ensures
        pair_views(table@) == static_headers(),
{
    let table: Vec<(String, String)> = vec![
        entry("accept", "*/*"),
        entry("accept-language", "en-US,en;q=0.9"),
        entry("content-type", "application/json"),
        entry("cache-control", "no-cache"),
        entry("origin", "https://x.com"),
        entry("pragma", "no-cache"),
        entry("priority", "u=1, i"),
        entry("referer", "https://x.com/"),
        entry(
            "sec-ch-ua",
            "\"Google Chrome\";v=\"135\", \"Not-A.Brand\";v=\"8\", \"Chromium\";v=\"135\"",
        ),
        entry("sec-ch-ua-mobile", "?0"),
        entry("sec-ch-ua-platform", "\"Windows\""),
        entry("sec-fetch-dest", "empty"),
        entry("sec-fetch-mode", "cors"),
        entry("sec-fetch-site", "same-origin"),
        entry(
            "user-agent",
            "Mozilla/5.0 (Windows NT 10.0; Win64; x64) AppleWebKit/537.36 (KHTML, like Gecko) Chrome/135.0.0.0 Safari/537.36",
        ),
        entry("x-twitter-active-user", "yes"),
        entry("x-twitter-client-language", "en"),
        entry("x-twitter-auth-type", "OAuth2Client"),
    ];
    assert(pair_views(table@) =~= static_headers());
    table
}

/// The value of the CSRF cookie `ct0`, where the store holds one.
pub open spec fn csrf_of(jar: Map<Seq<char>, CookieView>) -> Option<Seq<char>> {
    if jar.contains_key("ct0"@) {
        Some(jar["ct0"@].value)
    } else {
        None
    }
}

/// The `Authorization` header: the bearer token after `Bearer `.
pub open spec fn authorization(bearer: Seq<char>) -> (Seq<char>, Seq<char>) {
    ("Authorization"@, "Bearer "@ + bearer)
}

/// The headers that depend on the cookies: none without cookies; else the
/// `Cookie` header and, where there is a CSRF token, `x-csrf-token`.
pub open spec fn cookie_headers(order: Seq<CookieView>, csrf: Option<Seq<char>>) -> Seq<
    (Seq<char>, Seq<char>),
> {
    if order.len() == 0 {
        Seq::empty()
    } else {
        match csrf {
            Some(token) => seq![("Cookie"@, cookie_header(order)), ("x-csrf-token"@, token)],
            None => seq![("Cookie"@, cookie_header(order))],
        }
    }
}

/// The `x-guest-token` header, where there is a guest token.
pub open spec fn guest_headers(guest: Option<Seq<char>>) -> Seq<(Seq<char>, Seq<char>)> {
    match guest {
        Some(token) => seq![("x-guest-token"@, token)],
        None => Seq::empty(),
    }
}

/// The headers of a call made with a session, in the order in which they
/// are set: those of the cookies, listed in the order `order`; the
/// `Authorization` header; that of the guest token; the static headers.
pub open spec fn session_headers(
    order: Seq<CookieView>,
    csrf: Option<Seq<char>>,
    bearer: Seq<char>,
    guest: Option<Seq<char>>,
) -> Seq<(Seq<char>, Seq<char>)> {
    cookie_headers(order, csrf) + seq![authorization(bearer)] + guest_headers(guest)
        + static_headers()
}

/// The headers of the call that asks for a guest token: the
/// `Authorization` header, then the `Cookie` header if there are cookies.
pub open spec fn activation_headers(order: Seq<CookieView>, bearer: Seq<char>) -> Seq<
    (Seq<char>, Seq<char>),
> {
    if order.len() == 0 {
        seq![authorization(bearer)]
    } else {
        seq![authorization(bearer), ("Cookie"@, cookie_header(order))]
    }
}

/// Everything that a session puts into header values can stand there: the
/// bearer token, the guest token, and the name and value of every cookie.
pub open spec fn header_ready(
    jar: Map<Seq<char>, CookieView>,
    bearer: Seq<char>,
    guest: Option<Seq<char>>,
) -> bool {
    &&& is_header_text(bearer)
    &&& guest matches Some(token) ==> is_header_text(token)
    &&& forall|name: Seq<char>| #[trigger]
        jar.contains_key(name) ==> is_header_text(name) && is_header_text(jar[name].value)
}

/// A text made of two parts can stand as a header value exactly where both
/// parts can.
proof fn lemma_header_text_concat(first: Seq<char>, second: Seq<char>)
    ensures
        is_header_text(first + second) <==> is_header_text(first) && is_header_text(second),
{
    let both = first + second;
    if is_header_text(both) {
        assert forall|i: int| 0 <= i < first.len() implies is_value_char(
            #[trigger] first[i],
        ) by {
            assert(both[i] == first[i]);
        }
        assert forall|i: int| 0 <= i < second.len() implies is_value_char(
            #[trigger] second[i],
        ) by {
            assert(both[i + first.len()] == second[i]);
        }
    }
    if is_header_text(first) && is_header_text(second) {
        assert forall|i: int| 0 <= i < both.len() implies is_value_char(
            #[trigger] both[i],
        ) by {
            if i < first.len() {
                assert(both[i] == first[i]);
            } else {
                assert(both[i] == second[i - first.len()]);
            }
        }
    }
}

/// The `Cookie` header can stand as a header value exactly where the name
/// and the value of every cookie in it can.
proof fn lemma_cookie_header_valid(order: Seq<CookieView>)
    ensures
        is_header_text(cookie_header(order)) <==> forall|i: int|
            0 <= i < order.len() ==> is_header_text((#[trigger] order[i]).name) && is_header_text(
                order[i].value,
            ),
    decreases order.len(),
{
    reveal_strlit("=");
    reveal_strlit("; ");
    if order.len() == 0 {
    } else {
        let last = order.last();
        lemma_header_text_concat(last.name, "="@);
        lemma_header_text_concat(last.name + "="@, last.value);
        if order.len() == 1 {
            assert(order[0] == last);
        } else {
            let front = order.drop_last();
            lemma_cookie_header_valid(front);
            lemma_header_text_concat(cookie_header(front), "; "@);
            lemma_header_text_concat(cookie_header(front) + "; "@, pair_text(last));
            assert forall|i: int| 0 <= i < front.len() implies front[i] == order[i] by {}
            if is_header_text(cookie_header(order)) {
                assert forall|i: int| 0 <= i < order.len() implies is_header_text(
                    (#[trigger] order[i]).name,
                ) && is_header_text(order[i].value) by {
                    if i < front.len() {
                        assert(front[i] == order[i]);
                    }
                }
            }
            if forall|i: int|
                0 <= i < order.len() ==> is_header_text((#[trigger] order[i]).name)
                    && is_header_text(order[i].value) {
                assert(order[order.len() - 1] == last);
                assert forall|i: int| 0 <= i < front.len() implies is_header_text(
                    (#[trigger] front[i]).name,
                ) && is_header_text(front[i].value) by {
                    assert(front[i] == order[i]);
                }
            }
        }
    }
}

/// The names of a session's headers can all name a header.
proof fn lemma_session_header_names(
    order: Seq<CookieView>,
    csrf: Option<Seq<char>>,
    bearer: Seq<char>,
    guest: Option<Seq<char>>,
)
    ensures
        names_valid(session_headers(order, csrf, bearer, guest)),
        names_valid(activation_headers(order, bearer)),
{
    reveal_strlit("Cookie");
    reveal_strlit("x-csrf-token");
    reveal_strlit("Authorization");
    reveal_strlit("x-guest-token");
    lemma_static_headers_valid();
    let first = cookie_headers(order, csrf);
    let second = seq![authorization(bearer)];
    let third = guest_headers(guest);
    lemma_names_valid_concat(first, second);
    lemma_names_valid_concat(first + second, third);
    lemma_names_valid_concat(first + second + third, static_headers());
}

/// The values of a session's headers can all stand as header values
/// exactly where the session is ready for that, whatever the order in which
/// the cookies are listed.
pub proof fn lemma_session_header_values(
    jar: Map<Seq<char>, CookieView>,
    order: Seq<CookieView>,
    bearer: Seq<char>,
    guest: Option<Seq<char>>,
)
    requires
        lists(order, jar),
    ensures
        values_valid(session_headers(order, csrf_of(jar), bearer, guest)) <==> header_ready(
            jar,
            bearer,
            guest,
        ),
{
    reveal_strlit("Bearer ");
    lemma_static_headers_valid();
    lemma_header_text_concat("Bearer "@, bearer);
    lemma_cookie_header_valid(order);
    lemma_listing_finds(order, jar, "ct0"@);
    let csrf = csrf_of(jar);
    let first = cookie_headers(order, csrf);
    let second = seq![authorization(bearer)];
    let third = guest_headers(guest);
    lemma_values_valid_concat(first, second);
    lemma_values_valid_concat(first + second, third);
    lemma_values_valid_concat(first + second + third, static_headers());
    assert(values_valid(second) <==> is_header_text(bearer)) by {
        assert(second[0] == authorization(bearer));
    }
    assert(values_valid(third) <==> (guest matches Some(token) ==> is_header_text(token))) by {
        if guest is Some {
            assert(third[0].1 == guest->0);
        }
    }
    let cookies_ready = forall|name: Seq<char>| #[trigger]
        jar.contains_key(name) ==> is_header_text(name) && is_header_text(jar[name].value);
    assert(values_valid(first) <==> cookies_ready) by {
        if cookies_ready {
            assert forall|i: int| 0 <= i < order.len() implies is_header_text(
                (#[trigger] order[i]).name,
            ) && is_header_text(order[i].value) by {
                assert(jar.contains_key(order[i].name));
            }
            if order.len() > 0 {
                assert(first[0].1 == cookie_header(order));
                if csrf is Some {
                    assert(jar.contains_key("ct0"@));
                    assert(first[1].1 == csrf->0);
                }
            }
        }
        if values_valid(first) {
            assert forall|name: Seq<char>| #[trigger] jar.contains_key(name) implies is_header_text(
                name,
            ) && is_header_text(jar[name].value) by {
                lemma_listing_finds(order, jar, name);
                let i = choose|i: int| 0 <= i < order.len() && (#[trigger] order[i]).name == name;
                assert(first[0].1 == cookie_header(order));
            }
        }
    }
}

/// Every static header has a name that can name a header and a value that
/// can stand as a header value.
pub proof fn lemma_static_headers_valid()
    ensures
        names_valid(static_headers()),
        values_valid(static_headers()),
{
    reveal_strlit("accept");
    reveal_strlit("accept-language");
    reveal_strlit("content-type");
    reveal_strlit("cache-control");
    reveal_strlit("origin");
    reveal_strlit("pragma");
    reveal_strlit("priority");
    reveal_strlit("referer");
    reveal_strlit("sec-ch-ua");
    reveal_strlit("sec-ch-ua-mobile");
    reveal_strlit("sec-ch-ua-platform");
    reveal_strlit("sec-fetch-dest");
    reveal_strlit("sec-fetch-mode");
    reveal_strlit("sec-fetch-site");
    reveal_strlit("user-agent");
    reveal_strlit("x-twitter-active-user");
    reveal_strlit("x-twitter-client-language");
    reveal_strlit("x-twitter-auth-type");
    reveal_strlit("*/*");
    reveal_strlit("en-US,en;q=0.9");
    reveal_strlit("application/json");
    reveal_strlit("no-cache");
    reveal_strlit("https://x.com");
    reveal_strlit("u=1, i");
    reveal_strlit("https://x.com/");
    reveal_strlit(
        "\"Google Chrome\";v=\"135\", \"Not-A.Brand\";v=\"8\", \"Chromium\";v=\"135\"",
    );
    reveal_strlit("?0");
    reveal_strlit("\"Windows\"");
    reveal_strlit("empty");
    reveal_strlit("cors");
    reveal_strlit("same-origin");
    reveal_strlit(
        "Mozilla/5.0 (Windows NT 10.0; Win64; x64) AppleWebKit/537.36 (KHTML, like Gecko) Chrome/135.0.0.0 Safari/537.36",
    );
    reveal_strlit("yes");
    reveal_strlit("en");
    reveal_strlit("OAuth2Client");
}

/// A name that, by its length or by one of its first two letters, is none
/// of `authorization`, `x-csrf-token`, `x-guest-token` and `cookie`.
proof fn lemma_not_session_name(name: Seq<char>)
    requires
        name.len() > 1,
        name.len() == 6 ==> 'a' <= name[1] <= 'z' && name[1] != 'o',
        name.len() == 12 || name.len() == 13 ==> name[0] == 'c',
    ensures
        lowercase(name) != "authorization"@,
        lowercase(name) != "x-csrf-token"@,
        lowercase(name) != "x-guest-token"@,
        lowercase(name) != "cookie"@,
{
    reveal_strlit("authorization");
    reveal_strlit("x-csrf-token");
    reveal_strlit("x-guest-token");
    reveal_strlit("cookie");
    assert(lowercase(name)[0] == lower_char(name[0]));
    assert(lowercase(name)[1] == lower_char(name[1]));
    assert("authorization"@.len() == 13 && "x-csrf-token"@.len() == 12);
    assert("x-guest-token"@.len() == 13 && "cookie"@.len() == 6);
}

/// None of the static headers is named `authorization`, `x-csrf-token`,
/// `x-guest-token` or `cookie`.
proof fn lemma_static_headers_miss_session_names()
    ensures
        misses(static_headers(), "authorization"@),
        misses(static_headers(), "x-csrf-token"@),
        misses(static_headers(), "x-guest-token"@),
        misses(static_headers(), "cookie"@),
{
    reveal_strlit("accept");
    reveal_strlit("accept-language");
    reveal_strlit("content-type");
    reveal_strlit("cache-control");
    reveal_strlit("origin");
    reveal_strlit("pragma");
    reveal_strlit("priority");
    reveal_strlit("referer");
    reveal_strlit("sec-ch-ua");
    reveal_strlit("sec-ch-ua-mobile");
    reveal_strlit("sec-ch-ua-platform");
    reveal_strlit("sec-fetch-dest");
    reveal_strlit("sec-fetch-mode");
    reveal_strlit("sec-fetch-site");
    reveal_strlit("user-agent");
    reveal_strlit("x-twitter-active-user");
    reveal_strlit("x-twitter-client-language");
    reveal_strlit("x-twitter-auth-type");
    let names = static_headers();
    lemma_not_session_name(names[0].0);
    lemma_not_session_name(names[1].0);
    lemma_not_session_name(names[2].0);
    lemma_not_session_name(names[3].0);
    lemma_not_session_name(names[4].0);
    lemma_not_session_name(names[5].0);
    lemma_not_session_name(names[6].0);
    lemma_not_session_name(names[7].0);
    lemma_not_session_name(names[8].0);
    lemma_not_session_name(names[9].0);
    lemma_not_session_name(names[10].0);
    lemma_not_session_name(names[11].0);
    lemma_not_session_name(names[12].0);
    lemma_not_session_name(names[13].0);
    lemma_not_session_name(names[14].0);
    lemma_not_session_name(names[15].0);
    lemma_not_session_name(names[16].0);
    lemma_not_session_name(names[17].0);
}

/// The headers of a session whose store holds both essential cookies carry
/// both: the `Cookie` header comes first and holds `ct0=` and `auth_token=`
/// with their values, and `x-csrf-token` comes second with the value of
/// `ct0`.
pub proof fn lemma_headers_carry_essential_cookies(
    jar: Map<Seq<char>, CookieView>,
    order: Seq<CookieView>,
    bearer: Seq<char>,
    guest: Option<Seq<char>>,
)
    requires
        lists(order, jar),
        has_essential_cookies(jar),
    ensures
        session_headers(order, csrf_of(jar), bearer, guest)[0] == ("Cookie"@, cookie_header(order)),
        session_headers(order, csrf_of(jar), bearer, guest)[1] == (
            "x-csrf-token"@,
            jar["ct0"@].value,
        ),
        contains(cookie_header(order), "ct0"@ + "="@ + jar["ct0"@].value),
        contains(cookie_header(order), "auth_token"@ + "="@ + jar["auth_token"@].value),
{
    lemma_listing_finds(order, jar, "ct0"@);
    lemma_listing_finds(order, jar, "auth_token"@);
    let i = choose|i: int| 0 <= i < order.len() && (#[trigger] order[i]).name == "ct0"@;
    let j = choose|j: int| 0 <= j < order.len() && (#[trigger] order[j]).name == "auth_token"@;
    lemma_cookie_header_mentions(order, i);
    lemma_cookie_header_mentions(order, j);
}

/// What a header map holds once a session's headers are set in it.
///
/// `Authorization` always holds the bearer token after `Bearer `, and that
/// alone. `x-csrf-token` holds the value of the cookie `ct0` if the store
/// has that cookie, and is left as it was if not; `x-guest-token` holds the
/// guest token if there is one, and is left as it was if not.
pub proof fn lemma_installed_headers(
    before: Map<Seq<char>, Seq<Seq<u8>>>,
    jar: Map<Seq<char>, CookieView>,
    order: Seq<CookieView>,
    bearer: Seq<char>,
    guest: Option<Seq<char>>,
)
    requires
        lists(order, jar),
    ensures
        ({
            let after = with_headers(before, session_headers(order, csrf_of(jar), bearer, guest));
            &&& values_named(after, "Authorization"@) == seq![encode_utf8("Bearer "@ + bearer)]
            &&& values_named(after, "x-csrf-token"@) == match csrf_of(jar) {
                Some(token) => seq![encode_utf8(token)],
                None => values_named(before, "x-csrf-token"@),
            }
            &&& values_named(after, "x-guest-token"@) == match guest {
                Some(token) => seq![encode_utf8(token)],
                None => values_named(before, "x-guest-token"@),
            }
        }),
{
    reveal_with_fuel(with_headers, 3);
    reveal_strlit("Cookie");
    reveal_strlit("cookie");
    reveal_strlit("Authorization");
    reveal_strlit("authorization");
    reveal_strlit("x-csrf-token");
    reveal_strlit("x-guest-token");
    assert(lowercase("Cookie"@) =~= "cookie"@);
    assert(lowercase("Authorization"@) =~= "authorization"@);
    assert(lowercase("x-csrf-token"@) =~= "x-csrf-token"@);
    assert(lowercase("x-guest-token"@) =~= "x-guest-token"@);
    assert("cookie"@.len() == 6 && "authorization"@.len() == 13);
    assert("x-csrf-token"@.len() == 12 && "x-guest-token"@.len() == 13);
    assert("authorization"@[0] != "x-guest-token"@[0]);
    lemma_static_headers_miss_session_names();
    lemma_listing_finds(order, jar, "ct0"@);
    let csrf = csrf_of(jar);
    let first = cookie_headers(order, csrf);
    let second = seq![authorization(bearer)];
    let third = guest_headers(guest);
    let fixed = static_headers();
    let f1 = with_headers(before, first);
    let f2 = with_headers(f1, second);
    let f3 = with_headers(f2, third);
    lemma_with_headers_concat(before, first, second);
    lemma_with_headers_concat(before, first + second, third);
    lemma_with_headers_concat(before, first + second + third, fixed);
    assert(second.drop_last() =~= Seq::<(Seq<char>, Seq<char>)>::empty());
    assert(f2 == f1.insert("authorization"@, seq![encode_utf8("Bearer "@ + bearer)]));
    if guest is Some {
        assert(third.drop_last() =~= Seq::<(Seq<char>, Seq<char>)>::empty());
        assert(f3 == f2.insert("x-guest-token"@, seq![encode_utf8(guest->0)]));
    } else {
        assert(f3 == f2);
    }
    if order.len() == 0 {
        assert(f1 == before);
    } else if csrf is Some {
        assert(first.drop_last() =~= seq![("Cookie"@, cookie_header(order))]);
        assert(first.drop_last().drop_last() =~= Seq::<(Seq<char>, Seq<char>)>::empty());
        assert(f1 == before.insert("cookie"@, seq![encode_utf8(cookie_header(order))]).insert(
            "x-csrf-token"@,
            seq![encode_utf8(csrf->0)],
        ));
    } else {
        assert(first.drop_last() =~= Seq::<(Seq<char>, Seq<char>)>::empty());
        assert(f1 == before.insert("cookie"@, seq![encode_utf8(cookie_header(order))]));
    }
    lemma_with_headers_misses(f3, fixed, "authorization"@);
    lemma_with_headers_misses(f3, fixed, "x-csrf-token"@);
    lemma_with_headers_misses(f3, fixed, "x-guest-token"@);
}

/// The values of the headers of an activation call can all stand as header
/// values exactly where the bearer token and the cookies can.
pub proof fn lemma_activation_header_values(
    jar: Map<Seq<char>, CookieView>,
    order: Seq<CookieView>,
    bearer: Seq<char>,
)
    requires
        lists(order, jar),
    ensures
        values_valid(activation_headers(order, bearer)) <==> header_ready(jar, bearer, None),
{
    reveal_strlit("Bearer ");
    lemma_header_text_concat("Bearer "@, bearer);
    lemma_cookie_header_valid(order);
    let entries = activation_headers(order, bearer);
    assert(entries[0] == authorization(bearer));
    let cookies_ready = forall|name: Seq<char>| #[trigger]
        jar.contains_key(name) ==> is_header_text(name) && is_header_text(jar[name].value);
    if values_valid(entries) {
        assert(is_header_text(entries[0].1));
        assert forall|name: Seq<char>| #[trigger] jar.contains_key(name) implies is_header_text(
            name,
        ) && is_header_text(jar[name].value) by {
            lemma_listing_finds(order, jar, name);
            let i = choose|i: int| 0 <= i < order.len() && (#[trigger] order[i]).name == name;
            assert(entries[1].1 == cookie_header(order));
        }
    }
    if header_ready(jar, bearer, None) {
        assert forall|i: int| 0 <= i < order.len() implies is_header_text(
            (#[trigger] order[i]).name,
        ) && is_header_text(order[i].value) by {
            assert(jar.contains_key(order[i].name));
        }
        assert forall|k: int| 0 <= k < entries.len() implies is_header_text(
            (#[trigger] entries[k]).1,
        ) by {
            if k == 1 {
                assert(entries[1].1 == cookie_header(order));
            }
        }
    }
}

/// What tells the names of the static headers apart: the length of a name,
/// its first character, and its eleventh where it has one.
spec fn signature(name: Seq<char>) -> (nat, char, char) {
    (
        name.len(),
        name[0],
        if name.len() > 10 {
            name[10]
        } else {
            ' '
        },
    )
}

/// The signature of the static header at position `i`.
spec fn static_signature(i: int) -> (nat, char, char) {
    if i == 0 {
        (6, 'a', ' ')
    } else if i == 1 {
        (15, 'a', 'g')
    } else if i == 2 {
        (12, 'c', 'p')
    } else if i == 3 {
        (13, 'c', 'r')
    } else if i == 4 {
        (6, 'o', ' ')
    } else if i == 5 {
        (6, 'p', ' ')
    } else if i == 6 {
        (8, 'p', ' ')
    } else if i == 7 {
        (7, 'r', ' ')
    } else if i == 8 {
        (9, 's', ' ')
    } else if i == 9 {
        (16, 's', 'm')
    } else if i == 10 {
        (18, 's', 'p')
    } else if i == 11 {
        (14, 's', 'd')
    } else if i == 12 {
        (14, 's', 'm')
    } else if i == 13 {
        (14, 's', 's')
    } else if i == 14 {
        (10, 'u', ' ')
    } else if i == 15 {
        (21, 'x', 'a')
    } else if i == 16 {
        (25, 'x', 'c')
    } else if i == 17 {
        (19, 'x', 'a')
    } else {
        (0, ' ', ' ')
    }
}

/// Each static header has its signature, in lower case as it stands.
proof fn lemma_static_signatures()
    ensures
        forall|i: int|
            0 <= i < static_headers().len() ==> signature(
                lowercase((#[trigger] static_headers()[i]).0),
            ) == static_signature(i),
{
    reveal_strlit("accept");
    reveal_strlit("accept-language");
    reveal_strlit("content-type");
    reveal_strlit("cache-control");
    reveal_strlit("origin");
    reveal_strlit("pragma");
    reveal_strlit("priority");
    reveal_strlit("referer");
    reveal_strlit("sec-ch-ua");
    reveal_strlit("sec-ch-ua-mobile");
    reveal_strlit("sec-ch-ua-platform");
    reveal_strlit("sec-fetch-dest");
    reveal_strlit("sec-fetch-mode");
    reveal_strlit("sec-fetch-site");
    reveal_strlit("user-agent");
    reveal_strlit("x-twitter-active-user");
    reveal_strlit("x-twitter-client-language");
    reveal_strlit("x-twitter-auth-type");
    assert forall|i: int| 0 <= i < static_headers().len() implies signature(
        lowercase((#[trigger] static_headers()[i]).0),
    ) == static_signature(i) by {
        if i == 0 {
            let name = static_headers()[0].0;
            assert(name.len() == 6);
            assert(name[0] == 'a');
        } else if i == 1 {
            let name = static_headers()[1].0;
            assert(name.len() == 15);
            assert(name[0] == 'a');
            assert(name[10] == 'g');
        } else if i == 2 {
            let name = static_headers()[2].0;
            assert(name.len() == 12);
            assert(name[0] == 'c');
            assert(name[10] == 'p');
        } else if i == 3 {
            let name = static_headers()[3].0;
            assert(name.len() == 13);
            assert(name[0] == 'c');
            assert(name[10] == 'r');
        } else if i == 4 {
            let name = static_headers()[4].0;
            assert(name.len() == 6);
            assert(name[0] == 'o');
        } else if i == 5 {
            let name = static_headers()[5].0;
            assert(name.len() == 6);
            assert(name[0] == 'p');
        } else if i == 6 {
            let name = static_headers()[6].0;
            assert(name.len() == 8);
            assert(name[0] == 'p');
        } else if i == 7 {
            let name = static_headers()[7].0;
            assert(name.len() == 7);
            assert(name[0] == 'r');
        } else if i == 8 {
            let name = static_headers()[8].0;
            assert(name.len() == 9);
            assert(name[0] == 's');
        } else if i == 9 {
            let name = static_headers()[9].0;
            assert(name.len() == 16);
            assert(name[0] == 's');
            assert(name[10] == 'm');
        } else if i == 10 {
            let name = static_headers()[10].0;
            assert(name.len() == 18);
            assert(name[0] == 's');
            assert(name[10] == 'p');
        } else if i == 11 {
            let name = static_headers()[11].0;
            assert(name.len() == 14);
            assert(name[0] == 's');
            assert(name[10] == 'd');
        } else if i == 12 {
            let name = static_headers()[12].0;
            assert(name.len() == 14);
            assert(name[0] == 's');
            assert(name[10] == 'm');
        } else if i == 13 {
            let name = static_headers()[13].0;
            assert(name.len() == 14);
            assert(name[0] == 's');
            assert(name[10] == 's');
        } else if i == 14 {
            let name = static_headers()[14].0;
            assert(name.len() == 10);
            assert(name[0] == 'u');
        } else if i == 15 {
            let name = static_headers()[15].0;
            assert(name.len() == 21);
            assert(name[0] == 'x');
            assert(name[10] == 'a');
        } else if i == 16 {
            let name = static_headers()[16].0;
            assert(name.len() == 25);
            assert(name[0] == 'x');
            assert(name[10] == 'c');
        } else if i == 17 {
            let name = static_headers()[17].0;
            assert(name.len() == 19);
            assert(name[0] == 'x');
            assert(name[10] == 'a');
        }
        let name = static_headers()[i].0;
        let lower = lowercase(name);
        assert(lower.len() == name.len());
        assert(lower[0] == lower_char(name[0]));
        if name.len() > 10 {
            assert(lower[10] == lower_char(name[10]));
        }
    }
}

/// No two static headers have the same name, whatever the letter case.
pub proof fn lemma_static_names_differ()
    ensures
        forall|i: int, j: int|
            0 <= i < j < static_headers().len() ==> lowercase((#[trigger] static_headers()[i]).0)
                != lowercase((#[trigger] static_headers()[j]).0),
{
    lemma_static_signatures();
    assert forall|i: int, j: int| 0 <= i < j < static_headers().len() implies lowercase(
        (#[trigger] static_headers()[i]).0,
    ) != lowercase((#[trigger] static_headers()[j]).0) by {
        assert(static_signature(i) != static_signature(j));
    }
}

/// What a header map holds once a session's headers are set in it, beyond
/// what `lemma_installed_headers` says.
///
/// `Cookie` holds the cookie header if the store has cookies, and is left as
/// it was if not. Every static header holds its value, and that alone.
pub proof fn lemma_installed_cookie_and_static_headers(
    before: Map<Seq<char>, Seq<Seq<u8>>>,
    jar: Map<Seq<char>, CookieView>,
    order: Seq<CookieView>,
    bearer: Seq<char>,
    guest: Option<Seq<char>>,
)
    requires
        lists(order, jar),
    ensures
        ({
            let after = with_headers(before, session_headers(order, csrf_of(jar), bearer, guest));
            &&& values_named(after, "Cookie"@) == if order.len() > 0 {
                seq![encode_utf8(cookie_header(order))]
            } else {
                values_named(before, "Cookie"@)
            }
            &&& forall|i: int|
                0 <= i < static_headers().len() ==> values_named(
                    after,
                    (#[trigger] static_headers()[i]).0,
                ) == seq![encode_utf8(static_headers()[i].1)]
        }),
{
    reveal_with_fuel(with_headers, 3);
    reveal_strlit("Cookie");
    reveal_strlit("cookie");
    reveal_strlit("Authorization");
    reveal_strlit("x-csrf-token");
    reveal_strlit("x-guest-token");
    assert(lowercase("Cookie"@) =~= "cookie"@);
    assert("cookie"@.len() == 6);
    assert(lowercase("Authorization"@).len() == 13);
    assert(lowercase("x-csrf-token"@).len() == 12);
    assert(lowercase("x-guest-token"@).len() == 13);
    lemma_static_headers_miss_session_names();
    lemma_static_names_differ();
    let csrf = csrf_of(jar);
    let first = cookie_headers(order, csrf);
    let second = seq![authorization(bearer)];
    let third = guest_headers(guest);
    let fixed = static_headers();
    let f1 = with_headers(before, first);
    let f2 = with_headers(f1, second);
    let f3 = with_headers(f2, third);
    let after = with_headers(f3, fixed);
    lemma_with_headers_concat(before, first, second);
    lemma_with_headers_concat(before, first + second, third);
    lemma_with_headers_concat(before, first + second + third, fixed);
    if order.len() == 0 {
        assert(f1 == before);
    } else if csrf is Some {
        assert(first.drop_last() =~= seq![("Cookie"@, cookie_header(order))]);
        assert(first.drop_last().drop_last() =~= Seq::<(Seq<char>, Seq<char>)>::empty());
        assert(f1 == before.insert("cookie"@, seq![encode_utf8(cookie_header(order))]).insert(
            lowercase("x-csrf-token"@),
            seq![encode_utf8(csrf->0)],
        ));
    } else {
        assert(first.drop_last() =~= Seq::<(Seq<char>, Seq<char>)>::empty());
        assert(f1 == before.insert("cookie"@, seq![encode_utf8(cookie_header(order))]));
    }
    assert(misses(second, "cookie"@));
    assert(misses(third, "cookie"@));
    lemma_with_headers_misses(f1, second, "cookie"@);
    lemma_with_headers_misses(f2, third, "cookie"@);
    lemma_with_headers_misses(f3, fixed, "cookie"@);
    assert forall|i: int| 0 <= i < fixed.len() implies values_named(
        after,
        (#[trigger] fixed[i]).0,
    ) == seq![encode_utf8(fixed[i].1)] by {
        lemma_with_headers_last(f3, fixed, i);
    }
}

/// What a header map holds once the headers of an activation call are set
/// in it: `Authorization` holds the bearer token after `Bearer `, and that
/// alone; `Cookie` holds the cookie header if there are cookies, and is left
/// as it was if not; `x-guest-token` is left as it was.
pub proof fn lemma_installed_activation_headers(
    before: Map<Seq<char>, Seq<Seq<u8>>>,
    order: Seq<CookieView>,
    bearer: Seq<char>,
)
    ensures
        ({
            let after = with_headers(before, activation_headers(order, bearer));
            &&& values_named(after, "Authorization"@) == seq![encode_utf8("Bearer "@ + bearer)]
            &&& values_named(after, "Cookie"@) == if order.len() > 0 {
                seq![encode_utf8(cookie_header(order))]
            } else {
                values_named(before, "Cookie"@)
            }
            &&& values_named(after, "x-guest-token"@) == values_named(before, "x-guest-token"@)
        }),
{
    reveal_with_fuel(with_headers, 3);
    reveal_strlit("Cookie");
    reveal_strlit("Authorization");
    reveal_strlit("x-guest-token");
    assert(lowercase("Cookie"@).len() == 6);
    assert(lowercase("Authorization"@).len() == 13);
    assert(lowercase("x-guest-token"@).len() == 13);
    assert(lowercase("Authorization"@)[0] == lower_char("Authorization"@[0]));
    assert(lowercase("x-guest-token"@)[0] == lower_char("x-guest-token"@[0]));
    let entries = activation_headers(order, bearer);
    if order.len() == 0 {
        assert(entries.drop_last() =~= Seq::<(Seq<char>, Seq<char>)>::empty());
    } else {
        assert(entries.drop_last() =~= seq![authorization(bearer)]);
        assert(entries.drop_last().drop_last() =~= Seq::<(Seq<char>, Seq<char>)>::empty());
    }
}

/// The headers of a call made with a session, in the order in which
/// `install_headers` sets them, for the cookies listed in some order.
///
/// `Authorization` is always among them; `Cookie` exactly when there are
/// cookies; `x-csrf-token` exactly when there is a cookie `ct0`, with that
/// cookie's value; `x-guest-token` exactly when there is a guest token. The
/// others do not depend on the session.
pub fn header_entries(store: &CookieStore, bearer: &str, guest: Option<&str>) -> (entries: Vec<
    (String, String),
>)
    ensures
        exists|order: Seq<CookieView>| #[trigger]
            lists(order, store@) && pair_views(entries@) == session_headers(
                order,
                csrf_of(store@),
                bearer@,
                optional_text(guest),
            ),
{
    let list = store.cookies();
    let ghost order = views(list@);
    proof {
        lemma_listing_finds(order, store@, "ct0"@);
    }
    let mut entries: Vec<(String, String)> = Vec::new();
    if list.len() > 0 {
        entries.push(("Cookie".to_owned(), render_cookie_header(&list)));
        if let Some(token) = find_value(&list, "ct0") {
            entries.push(("x-csrf-token".to_owned(), token));
        }
    }
    assert(pair_views(entries@) =~= cookie_headers(order, csrf_of(store@)));
    let mut credentials = "Bearer ".to_owned();
    credentials.append(bearer);
    entries.push(("Authorization".to_owned(), credentials));
    if let Some(token) = guest {
        entries.push(("x-guest-token".to_owned(), token.to_owned()));
    }
    assert(pair_views(entries@) =~= cookie_headers(order, csrf_of(store@)) + seq![
        authorization(bearer@),
    ] + guest_headers(optional_text(guest)));
    let mut fixed = static_header_table();
    entries.append(&mut fixed);
    assert(pair_views(entries@) =~= session_headers(
        order,
        csrf_of(store@),
        bearer@,
        optional_text(guest),
    ));
    assert(lists(order, store@));
    entries
}

/// Sets the headers of a call made with a session in `headers`, in the
/// order of `session_headers`, each in place of any header of that name.
/// The cookies are listed in some order.
///
/// How this can end is said by `sets_headers`. It ends in an error if the
/// bearer token, the guest token, or the name or value of a cookie cannot
/// stand in a header value. If they all can, and the map has room for the
/// 22 headers that a session sets at most, it ends well.
pub fn install_session_headers(
    store: &CookieStore,
    bearer: &str,
    guest: Option<&str>,
    headers: &mut reqwest::header::HeaderMap,
) -> (result: Result<(), TwitterError>)
    ensures
        exists|order: Seq<CookieView>| #[trigger]
            lists(order, store@) && sets_headers(
                result,
                header_fields(*old(headers)),
                header_fields(*final(headers)),
                session_headers(order, csrf_of(store@), bearer@, optional_text(guest)),
            ),
        !header_ready(store@, bearer@, optional_text(guest)) ==> result is Err,
        header_ready(store@, bearer@, optional_text(guest)) && has_room(
            header_count(*old(headers)),
            22,
        ) ==> result is Ok,
        has_room(header_count(*old(headers)), 22) ==> (result matches Err(error)
            ==> error.is_auth("failed to parse header value"@)),
        header_count(*final(headers)) <= header_count(*old(headers)) + 22,
{
    let entries = header_entries(store, bearer, guest);
    proof {
        let order = choose|order: Seq<CookieView>| #[trigger]
            lists(order, store@) && pair_views(entries@) == session_headers(
                order,
                csrf_of(store@),
                bearer@,
                optional_text(guest),
            );
        lemma_session_header_names(order, csrf_of(store@), bearer@, optional_text(guest));
        lemma_session_header_values(store@, order, bearer@, optional_text(guest));
        assert(session_headers(order, csrf_of(store@), bearer@, optional_text(guest)).len()
            <= 22);
    }
    set_headers(headers, &entries)
}

/// Whether everything that a session puts into header values can stand
/// there: an authentication error with the message
/// `failed to parse header value` says that it cannot.
pub fn check_header_values(store: &CookieStore, bearer: &str, guest: Option<&str>) -> (result:
    Result<(), TwitterError>)
    ensures
        match result {
            Ok(_) => header_ready(store@, bearer@, optional_text(guest)),
            Err(error) => !header_ready(store@, bearer@, optional_text(guest)) && error.is_auth(
                "failed to parse header value"@,
            ),
        },
{
    let entries = header_entries(store, bearer, guest);
    proof {
        let order = choose|order: Seq<CookieView>| #[trigger]
            lists(order, store@) && pair_views(entries@) == session_headers(
                order,
                csrf_of(store@),
                bearer@,
                optional_text(guest),
            );
        lemma_session_header_values(store@, order, bearer@, optional_text(guest));
    }
    let mut i: usize = 0;
    while i < entries.len()
        invariant
            i <= entries.len(),
            values_valid(pair_views(entries@)) <==> header_ready(
                store@,
                bearer@,
                optional_text(guest),
            ),
            forall|k: int| 0 <= k < i ==> is_header_text((#[trigger] pair_views(entries@)[k]).1),
        decreases entries.len() - i,
    {
        if !is_valid_header_text(entries[i].1.as_str()) {
            assert(!is_header_text(pair_views(entries@)[i as int].1));
            return Err(TwitterError::auth("failed to parse header value"));
        }
        i += 1;
    }
    Ok(())
}

/// Sets the headers of the call that asks for a guest token in `headers`:
/// `Authorization`, then `Cookie` if there are cookies. How this can end is
/// said by `sets_headers`. It ends well exactly when the bearer token and
/// the name and value of every cookie can stand in a header value, if the
/// map has room for two headers.
pub fn install_activation_headers(
    store: &CookieStore,
    bearer: &str,
    headers: &mut reqwest::header::HeaderMap,
) -> (result: Result<(), TwitterError>)
    ensures
        exists|order: Seq<CookieView>| #[trigger]
            lists(order, store@) && sets_headers(
                result,
                header_fields(*old(headers)),
                header_fields(*final(headers)),
                activation_headers(order, bearer@),
            ),
        !header_ready(store@, bearer@, None) ==> result is Err,
        header_ready(store@, bearer@, None) && has_room(header_count(*old(headers)), 2)
            ==> result is Ok,
        has_room(header_count(*old(headers)), 2) ==> (result matches Err(error)
            ==> error.is_auth("failed to parse header value"@)),
        header_count(*final(headers)) <= header_count(*old(headers)) + 2,
{
    let list = store.cookies();
    let ghost order = views(list@);
    let mut credentials = "Bearer ".to_owned();
    credentials.append(bearer);
    let mut entries: Vec<(String, String)> = Vec::new();
    entries.push(("Authorization".to_owned(), credentials));
    if list.len() > 0 {
        entries.push(("Cookie".to_owned(), render_cookie_header(&list)));
    }
    proof {
        assert(pair_views(entries@) =~= activation_headers(order, bearer@));
        lemma_session_header_names(order, None, bearer@, None);
        lemma_activation_header_values(store@, order, bearer@);
        assert(lists(order, store@));
    }
    set_headers(headers, &entries)
}

/// A new header map with the headers of a call made with a session, the
/// cookies listed in some order. The result is an error exactly when the
/// bearer token, the guest token, or the name or value of a cookie cannot
/// stand in a header value; the error is then an authentication error with
/// the message `failed to parse header value`.
pub fn session_header_map(store: &CookieStore, bearer: &str, guest: Option<&str>) -> (result:
    Result<reqwest::header::HeaderMap, TwitterError>)
    ensures
        match result {
            Ok(headers) => header_ready(store@, bearer@, optional_text(guest)) && exists|
                order: Seq<CookieView>,
            | #[trigger]
                lists(order, store@) && header_fields(headers) == with_headers(
                    Map::empty(),
                    session_headers(order, csrf_of(store@), bearer@, optional_text(guest)),
                ),
            Err(error) => !header_ready(store@, bearer@, optional_text(guest)) && error.is_auth(
                "failed to parse header value"@,
            ),
        },
{
    let mut headers = empty_headers();
    let ghost before = header_fields(headers);
    let installed = install_session_headers(store, bearer, guest, &mut headers);
    proof {
        let order = choose|order: Seq<CookieView>| #[trigger]
            lists(order, store@) && sets_headers(
                installed,
                before,
                header_fields(headers),
                session_headers(order, csrf_of(store@), bearer@, optional_text(guest)),
            );
        assert(lists(order, store@));
    }
    match installed {
        Ok(_) => Ok(headers),
        Err(error) => Err(error),
    }
}

} // verus!
