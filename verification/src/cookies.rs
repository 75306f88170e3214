//! Cookies as plain values, and the jar and the parser of the `cookie` crate
//! with what is taken on trust of them.

use crate::text::{chars_of, contains, has_substring, lowercase, to_lowercase};
use vstd::prelude::*;

verus! {

/// One cookie, as plain values.
#[derive(Debug, Clone, PartialEq, Eq)]
pub struct Cookie {
    pub name: String,
    pub value: String,
    pub domain: Option<String>,
    pub path: Option<String>,
    pub secure: Option<bool>,
    pub http_only: Option<bool>,
}

/// The mathematical value of a [`Cookie`].
pub struct CookieView {
    pub name: Seq<char>,
    pub value: Seq<char>,
    pub domain: Option<Seq<char>>,
    pub path: Option<Seq<char>>,
    pub secure: Option<bool>,
    pub http_only: Option<bool>,
}

impl View for Cookie {
    type V = CookieView;

    open spec fn view(&self) -> CookieView {
        CookieView {
            name: self.name@,
            value: self.value@,
            domain: match self.domain {
                Some(domain) => Some(domain@),
                None => None,
            },
            path: match self.path {
                Some(path) => Some(path@),
                None => None,
            },
            secure: self.secure,
            http_only: self.http_only,
        }
    }
}

/// The views of a list of cookies, in order.
pub open spec fn views(list: Seq<Cookie>) -> Seq<CookieView> {
    Seq::new(list.len(), |i: int| list[i]@)
}

/// A cookie with the attributes that every rebuilt cookie gets: path `/`,
/// the platform's domain, secure and HTTP-only.
pub open spec fn canonical(name: Seq<char>, value: Seq<char>) -> CookieView {
    CookieView {
        name,
        value,
        domain: Some("x.com"@),
        path: Some("/"@),
        secure: Some(true),
        http_only: Some(true),
    }
}

/// A domain as a stored cookie reports it: without one leading dot.
pub open spec fn reported_domain(domain: Seq<char>) -> Seq<char> {
    if domain.len() > 0 && domain[0] == '.' {
        domain.drop_first()
    } else {
        domain
    }
}

/// A cookie as the jar hands it back once stored.
pub open spec fn stored(c: CookieView) -> CookieView {
    CookieView {
        domain: match c.domain {
            Some(domain) => Some(reported_domain(domain)),
            None => None,
        },
        ..c
    }
}

/// `order` names every cookie of `jar` exactly once.
pub open spec fn lists(order: Seq<CookieView>, jar: Map<Seq<char>, CookieView>) -> bool {
    &&& forall|i: int|
        0 <= i < order.len() ==> jar.contains_key(#[trigger] order[i].name) && jar[order[i].name]
            == order[i]
    &&& forall|i: int, j: int|
        0 <= i < j < order.len() ==> (#[trigger] order[i]).name != (#[trigger] order[j]).name
    &&& forall|name: Seq<char>| #[trigger]
        jar.contains_key(name) ==> exists|i: int|
            0 <= i < order.len() && (#[trigger] order[i]).name == name
}

/// A `Set-Cookie` value that asks for a cookie's removal: it holds
/// `max-age=0`, a negative `max-age`, or an `expires` at the epoch, in any
/// letter case.
pub open spec fn is_deletion_directive(text: Seq<char>) -> bool {
    let lower = lowercase(text);
    contains(lower, "max-age=0"@) || contains(lower, "max-age=-"@) || contains(
        lower,
        "expires=thu, 01 jan 1970"@,
    )
}

/// `cookie::CookieJar`, the collection that holds the cookies.
#[verifier::external_type_specification]
#[verifier::external_body]
pub struct ExCookieJar(cookie::CookieJar);

/// The cookies that a jar holds, by name.
pub uninterp spec fn jar_cookies(jar: cookie::CookieJar) -> Map<Seq<char>, CookieView>;

/// What `cookie::Cookie::parse` makes of a text: the cookie, with the six
/// values as its accessors report them, or `None` where the parser reports
/// an error.
pub uninterp spec fn parsed_cookie(text: Seq<char>) -> Option<CookieView>;

/// `cookie::CookieJar::new`: a jar without cookies.
#[verifier::external_body]
pub(crate) fn new_jar() -> (jar: cookie::CookieJar)
    ensures
        jar_cookies(jar) == (Map::<Seq<char>, CookieView>::empty()),
{
    cookie::CookieJar::new()
}

/// `cookie::CookieJar::add`: the cookie takes the place of any cookie of the
/// same name; the others stay. The cookie is made from the six values by
/// `cookie::Cookie::new` and its setters; a later reading reports its domain
/// without a leading dot.
#[verifier::external_body]
pub(crate) fn jar_add(jar: &mut cookie::CookieJar, c: Cookie)
    ensures
        jar_cookies(*final(jar)) == jar_cookies(*old(jar)).insert(c.name@, stored(c@)),
{
    let mut made = cookie::Cookie::new(c.name, c.value);
    if let Some(domain) = c.domain {
        made.set_domain(domain);
    }
    if let Some(path) = c.path {
        made.set_path(path);
    }
    made.set_secure(c.secure);
    made.set_http_only(c.http_only);
    jar.add(made);
}

/// `cookie::CookieJar::iter`: every cookie of the jar once, in an order that
/// the jar does not fix, each read by its accessors.
#[verifier::external_body]
pub(crate) fn jar_list(jar: &cookie::CookieJar) -> (list: Vec<Cookie>)
    ensures
        lists(views(list@), jar_cookies(*jar)),
{
    jar.iter().map(|c| Cookie {
        name: c.name().to_string(),
        value: c.value().to_string(),
        domain: c.domain().map(String::from),
        path: c.path().map(String::from),
        secure: c.secure(),
        http_only: c.http_only(),
    }).collect()
}

/// `cookie::Cookie::parse`: the cookie that the text describes, read by its
/// accessors, `None` where the parser reports an error.
#[verifier::external_body]
pub(crate) fn parse_cookie(text: &str) -> (parsed: Option<Cookie>)
    ensures
        match parsed {
            Some(c) => parsed_cookie(text@) == Some(c@),
            None => parsed_cookie(text@) is None,
        },
{
    match cookie::Cookie::parse(text) {
        Ok(c) => Some(Cookie {
            name: c.name().to_string(),
            value: c.value().to_string(),
            domain: c.domain().map(String::from),
            path: c.path().map(String::from),
            secure: c.secure(),
            http_only: c.http_only(),
        }),
        Err(_) => None,
    }
}

impl Cookie {
    /// A cookie with the attributes that every rebuilt cookie gets.
    pub fn canonical(name: String, value: String) -> (c: Cookie)
        ensures
            c@ == canonical(name@, value@),
    {
        Cookie {
            name,
            value,
            domain: Some("x.com".to_owned()),
            path: Some("/".to_owned()),
            secure: Some(true),
            http_only: Some(true),
        }
    }
}

/// Whether a `Set-Cookie` value asks for a cookie's removal.
pub fn is_deletion(text: &str) -> (deletion: bool)
    ensures
        deletion == is_deletion_directive(text@),
{
    let lower = to_lowercase(&chars_of(text));
    has_substring(&lower, &chars_of("max-age=0")) || has_substring(&lower, &chars_of("max-age=-"))
        || has_substring(&lower, &chars_of("expires=thu, 01 jan 1970"))
}

/// The store after one `Set-Cookie` value has come in. A value that is no
/// text, one that asks for a removal, and one that the parser refuses leave
/// the store as it is; any other puts its cookie under the cookie's name.
pub open spec fn ingest_one(jar: Map<Seq<char>, CookieView>, value: Option<Seq<char>>) -> Map<
    Seq<char>,
    CookieView,
> {
    match value {
        Some(text) => if is_deletion_directive(text) {
            jar
        } else {
            match parsed_cookie(text) {
                Some(c) => jar.insert(c.name, stored(c)),
                None => jar,
            }
        },
        None => jar,
    }
}

/// The store after the `Set-Cookie` values have come in, one after the
/// other.
pub open spec fn ingest(jar: Map<Seq<char>, CookieView>, values: Seq<Option<Seq<char>>>) -> Map<
    Seq<char>,
    CookieView,
>
    decreases values.len(),
{
    if values.len() == 0 {
        jar
    } else {
        ingest_one(ingest(jar, values.drop_last()), values.last())
    }
}

/// The value names the cookie `name`: it is a text that the parser reads as
/// a cookie of that name.
pub open spec fn sets_cookie(value: Option<Seq<char>>, name: Seq<char>) -> bool {
    value matches Some(text) && parsed_cookie(text) matches Some(c) && c.name == name
}

/// A `Set-Cookie` value that asks for a removal changes nothing in the
/// store: its cookie is neither put in nor does it take the place of one.
pub proof fn lemma_deletion_directive_is_skipped(jar: Map<Seq<char>, CookieView>, text: Seq<char>)
    requires
        is_deletion_directive(text),
    ensures
        ingest_one(jar, Some(text)) == jar,
{
}

/// A cookie that the store does not hold is still absent after the values
/// have come in, if every value that names it asks for a removal.
pub proof fn lemma_removed_cookie_stays_absent(
    jar: Map<Seq<char>, CookieView>,
    values: Seq<Option<Seq<char>>>,
    name: Seq<char>,
)
    requires
        !jar.contains_key(name),
        forall|i: int|
            0 <= i < values.len() && sets_cookie(#[trigger] values[i], name)
                ==> is_deletion_directive(values[i]->0),
    ensures
        !ingest(jar, values).contains_key(name),
    decreases values.len(),
{
    if values.len() > 0 {
        let front = values.drop_last();
        assert forall|i: int|
            0 <= i < front.len() && sets_cookie(
                #[trigger] front[i],
                name,
            ) implies is_deletion_directive(front[i]->0) by {
            assert(front[i] == values[i]);
        }
        lemma_removed_cookie_stays_absent(jar, front, name);
        assert(values.last() == values[values.len() - 1]);
    }
}

} // verus!
