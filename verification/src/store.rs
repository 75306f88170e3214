//! The cookie store of a session: the cookies by name, with what comes in
//! from `Set-Cookie` headers and what goes out in the `Cookie` header.

use crate::cookies::{
    canonical, ingest, is_deletion, jar_add, jar_cookies, jar_list, lists, new_jar, parse_cookie,
    parsed_cookie, stored, views, Cookie, CookieView,
};
use crate::error::TwitterError;
use crate::headers::{
    header_fields, header_texts, option_views, pair_views, values_named, visible_texts,
};
use crate::persist::{pairs_of, restored};
use crate::text::{
    chars_of, contains, occurs_at, same_text, split, split_bounds, trim_bounds, trimmed,
};
use vstd::prelude::*;

verus! {

/// The cookies of a session. No two of them have the same name.
pub struct CookieStore {
    jar: cookie::CookieJar,
}

impl View for CookieStore {
    type V = Map<Seq<char>, CookieView>;

    /// The cookies of the store, by name.
    closed spec fn view(&self) -> Map<Seq<char>, CookieView> {
        jar_cookies(self.jar)
    }
}

/// A cookie as it stands in a `Cookie` header: name, `=`, value.
pub open spec fn pair_text(c: CookieView) -> Seq<char> {
    c.name + "="@ + c.value
}

/// The `Cookie` header for a list of cookies: each as name, `=`, value, with
/// `; ` between two of them.
pub open spec fn cookie_header(order: Seq<CookieView>) -> Seq<char>
    decreases order.len(),
{
    if order.len() == 0 {
        Seq::empty()
    } else if order.len() == 1 {
        pair_text(order[0])
    } else {
        cookie_header(order.drop_last()) + "; "@ + pair_text(order.last())
    }
}

/// The (name, value) pair that a segment of a cookie string gives: that of
/// the cookie which the parser reads from the trimmed segment.
pub open spec fn segment_pair(segment: Seq<char>) -> Option<(Seq<char>, Seq<char>)> {
    match parsed_cookie(trimmed(segment)) {
        Some(c) => Some((c.name, c.value)),
        None => None,
    }
}

/// The pairs that the segments of a cookie string give, in order; a
/// segment that the parser refuses gives none.
pub open spec fn imported_pairs(segments: Seq<Seq<char>>) -> Seq<(Seq<char>, Seq<char>)>
    decreases segments.len(),
{
    if segments.len() == 0 {
        Seq::empty()
    } else {
        let before = imported_pairs(segments.drop_last());
        match segment_pair(segments.last()) {
            Some(pair) => before.push(pair),
            None => before,
        }
    }
}

/// The store holds both cookies that a restored session needs: the CSRF
/// cookie `ct0` and the session cookie `auth_token`.
pub open spec fn has_essential_cookies(jar: Map<Seq<char>, CookieView>) -> bool {
    jar.contains_key("ct0"@) && jar.contains_key("auth_token"@)
}

/// What a listing of a store finds under a name is what the store holds
/// under it, and a store without cookies has an empty listing.
pub proof fn lemma_listing_finds(
    order: Seq<CookieView>,
    jar: Map<Seq<char>, CookieView>,
    name: Seq<char>,
)
    requires
        lists(order, jar),
    ensures
        jar.contains_key(name) <==> exists|i: int|
            0 <= i < order.len() && (#[trigger] order[i]).name == name,
        forall|i: int|
            0 <= i < order.len() && (#[trigger] order[i]).name == name ==> jar[name] == order[i],
        order.len() == 0 <==> jar.dom() =~= Set::<Seq<char>>::empty(),
{
    if jar.contains_key(name) {
        let i = choose|i: int| 0 <= i < order.len() && (#[trigger] order[i]).name == name;
    }
    if exists|i: int| 0 <= i < order.len() && (#[trigger] order[i]).name == name {
        let i = choose|i: int| 0 <= i < order.len() && (#[trigger] order[i]).name == name;
        assert(jar.contains_key(order[i].name));
    }
    if order.len() > 0 {
        assert(jar.contains_key(order[0].name));
    }
    if !(jar.dom() =~= Set::<Seq<char>>::empty()) {
        let n = choose|n: Seq<char>| jar.dom().contains(n);
        assert(jar.contains_key(n));
        let i = choose|i: int| 0 <= i < order.len() && (#[trigger] order[i]).name == n;
    }
}

/// A text that stands in the first of two parts stands in the whole, and
/// the second part stands in the whole.
proof fn lemma_contains_concat(first: Seq<char>, second: Seq<char>, needle: Seq<char>)
    ensures
        contains(first, needle) ==> contains(first + second, needle),
        contains(first + second, second),
{
    let whole = first + second;
    if contains(first, needle) {
        let at = choose|at: int| occurs_at(first, needle, at);
        assert(whole.subrange(at, at + needle.len()) =~= first.subrange(at, at + needle.len()));
        assert(occurs_at(whole, needle, at));
    }
    assert(whole.subrange(first.len() as int, whole.len() as int) =~= second);
    assert(occurs_at(whole, second, first.len() as int));
}

/// The `Cookie` header holds the `name=value` text of each cookie in it.
pub proof fn lemma_cookie_header_mentions(order: Seq<CookieView>, at: int)
    requires
        0 <= at < order.len(),
    ensures
        contains(cookie_header(order), pair_text(order[at])),
    decreases order.len(),
{
    let last = pair_text(order.last());
    if order.len() == 1 {
        lemma_contains_concat(Seq::empty(), last, last);
        assert(Seq::<char>::empty() + last =~= last);
    } else {
        let front = order.drop_last();
        let head = cookie_header(front) + "; "@;
        if at == order.len() - 1 {
            lemma_contains_concat(head, last, last);
        } else {
            assert(front[at] == order[at]);
            lemma_cookie_header_mentions(front, at);
            lemma_contains_concat(cookie_header(front), "; "@, pair_text(order[at]));
            lemma_contains_concat(head, last, pair_text(order[at]));
        }
    }
}

/// A rebuilt cookie is stored as it is.
proof fn lemma_canonical_is_stored(name: Seq<char>, value: Seq<char>)
    ensures
        stored(canonical(name, value)) == canonical(name, value),
{
    reveal_strlit("x.com");
}

/// The `Cookie` header for a list of cookies, in the list's order.
pub fn render_cookie_header(list: &Vec<Cookie>) -> (header: String)
    ensures
        header@ == cookie_header(views(list@)),
{
    let mut header = String::new();
    let mut i: usize = 0;
    assert(views(list@).take(0) =~= Seq::<CookieView>::empty());
    while i < list.len()
        invariant
            i <= list.len(),
            header@ == cookie_header(views(list@).take(i as int)),
        decreases list.len() - i,
    {
        let ghost before = views(list@).take(i as int);
        let ghost now = views(list@).take(i + 1);
        assert(now.drop_last() =~= before);
        assert(now.last() == list@[i as int]@);
        if i > 0 {
            header.append("; ");
        }
        header.append(list[i].name.as_str());
        header.append("=");
        header.append(list[i].value.as_str());
        assert(header@ =~= cookie_header(now)) by {
            if i == 0 {
                assert(before =~= Seq::<CookieView>::empty());
                assert(now[0] == now.last());
            }
        }
        i += 1;
    }
    assert(views(list@).take(list.len() as int) =~= views(list@));
    header
}

/// The value of the first cookie of the list that has the name `name`.
pub fn find_value(list: &Vec<Cookie>, name: &str) -> (found: Option<String>)
    ensures
        match found {
            Some(value) => exists|i: int|
                {
                    &&& 0 <= i < list@.len()
                    &&& (#[trigger] views(list@)[i]).name == name@
                    &&& views(list@)[i].value == value@
                    &&& forall|k: int| 0 <= k < i ==> (#[trigger] views(list@)[k]).name != name@
                },
            None => forall|i: int|
                0 <= i < list@.len() ==> (#[trigger] views(list@)[i]).name != name@,
        },
{
    let mut i: usize = 0;
    while i < list.len()
        invariant
            i <= list.len(),
            forall|k: int| 0 <= k < i ==> (#[trigger] views(list@)[k]).name != name@,
        decreases list.len() - i,
    {
        if same_text(list[i].name.as_str(), name) {
            assert(views(list@)[i as int].name == name@);
            return Some(list[i].value.clone());
        }
        i += 1;
    }
    None
}

impl CookieStore {
    /// A store without cookies.
    pub fn new() -> (store: CookieStore)
        ensures
            store@ == (Map::<Seq<char>, CookieView>::empty()),
    {
        CookieStore { jar: new_jar() }
    }

    /// Puts a cookie into the store, in place of any cookie of its name. The
    /// store hands the cookie back as `stored` says.
    pub fn add(&mut self, cookie: Cookie)
        ensures
            final(self)@ == old(self)@.insert(cookie.name@, stored(cookie@)),
    {
        jar_add(&mut self.jar, cookie);
    }

    /// The cookies of the store, each once, in no fixed order.
    pub fn cookies(&self) -> (list: Vec<Cookie>)
        ensures
            lists(views(list@), self@),
    {
        jar_list(&self.jar)
    }

    /// The value of the cookie `name`, if the store holds one.
    pub fn value_of(&self, name: &str) -> (found: Option<String>)
        ensures
            match found {
                Some(value) => self@.contains_key(name@) && self@[name@].value == value@,
                None => !self@.contains_key(name@),
            },
    {
        let list = jar_list(&self.jar);
        proof {
            lemma_listing_finds(views(list@), self@, name@);
        }
        find_value(&list, name)
    }

    /// Takes in `Set-Cookie` values, in order: `None` stands for a value
    /// that is no visible text. A value that asks for a removal (see
    /// `is_deletion_directive`) is passed over, as is one that the cookie
    /// parser refuses; every other puts its cookie in the store, in place of
    /// any cookie of that name.
    pub fn ingest(&mut self, values: &Vec<Option<String>>)
        ensures
            final(self)@ == ingest(old(self)@, option_views(values@)),
    {
        let ghost all = option_views(values@);
        let mut i: usize = 0;
        assert(all.take(0) =~= Seq::<Option<Seq<char>>>::empty());
        while i < values.len()
            invariant
                i <= values.len(),
                all == option_views(values@),
                self@ == ingest(old(self)@, all.take(i as int)),
            decreases values.len() - i,
        {
            assert(all.take(i + 1).drop_last() =~= all.take(i as int));
            assert(all.take(i + 1).last() == all[i as int]);
            if let Some(text) = &values[i] {
                if !is_deletion(text.as_str()) {
                    if let Some(c) = parse_cookie(text.as_str()) {
                        jar_add(&mut self.jar, c);
                    }
                }
            }
            i += 1;
        }
        assert(all.take(values.len() as int) =~= all);
    }

    /// Takes in the cookies that the `Set-Cookie` headers of a response
    /// set, in the headers' order, as `ingest` does.
    pub fn ingest_headers(&mut self, headers: &reqwest::header::HeaderMap)
        ensures
            final(self)@ == ingest(
                old(self)@,
                visible_texts(values_named(header_fields(*headers), "set-cookie"@)),
            ),
    {
        proof {
            reveal_strlit("set-cookie");
        }
        let values = header_texts(headers, "set-cookie");
        self.ingest(&values);
    }

    /// The `Cookie` header for the store: `None` without cookies, else the
    /// cookies in some order, each once, as `name=value` with `; ` between
    /// them.
    pub fn header_string(&self) -> (header: Option<String>)
        ensures
            match header {
                Some(text) => exists|order: Seq<CookieView>|
                    order.len() > 0 && #[trigger] lists(order, self@) && text@ == cookie_header(
                        order,
                    ),
                None => self@.dom() =~= Set::<Seq<char>>::empty(),
            },
    {
        let list = jar_list(&self.jar);
        proof {
            lemma_listing_finds(views(list@), self@, Seq::empty());
        }
        if list.len() == 0 {
            None
        } else {
            Some(render_cookie_header(&list))
        }
    }

    /// The cookies as one text: the cookies in some order, each once, as
    /// `name=value` with `; ` between them; empty without cookies.
    pub fn cookie_string(&self) -> (text: String)
        ensures
            exists|order: Seq<CookieView>| #[trigger]
                lists(order, self@) && text@ == cookie_header(order),
    {
        let list = jar_list(&self.jar);
        assert(lists(views(list@), self@));
        render_cookie_header(&list)
    }

    /// The (name, value) pairs of the cookies: those of the cookies in some
    /// order, each once.
    pub fn pairs(&self) -> (pairs: Vec<(String, String)>)
        ensures
            exists|order: Seq<CookieView>| #[trigger]
                lists(order, self@) && pair_views(pairs@) == pairs_of(order),
    {
        let list = jar_list(&self.jar);
        let mut pairs: Vec<(String, String)> = Vec::new();
        let mut i: usize = 0;
        while i < list.len()
            invariant
                i <= list.len(),
                pairs@.len() == i,
                forall|k: int|
                    0 <= k < i ==> (#[trigger] pairs@[k]).0@ == list@[k].name@ && pairs@[k].1@
                        == list@[k].value@,
            decreases list.len() - i,
        {
            pairs.push((list[i].name.clone(), list[i].value.clone()));
            i += 1;
        }
        assert(pair_views(pairs@) =~= pairs_of(views(list@)));
        assert(lists(views(list@), self@));
        pairs
    }

    /// Puts the cookies of a list of (name, value) pairs in place of all
    /// that the store held: one cookie for each name, with the value of the
    /// last pair of that name, each rebuilt with the attributes that every
    /// rebuilt cookie gets.
    pub fn restore(&mut self, pairs: &Vec<(String, String)>)
        ensures
            final(self)@ == restored(pair_views(pairs@)),
    {
        self.jar = new_jar();
        let ghost all = pair_views(pairs@);
        let mut i: usize = 0;
        assert(all.take(0) =~= Seq::<(Seq<char>, Seq<char>)>::empty());
        while i < pairs.len()
            invariant
                i <= pairs.len(),
                all == pair_views(pairs@),
                self@ == restored(all.take(i as int)),
            decreases pairs.len() - i,
        {
            proof {
                assert(all.take(i + 1).drop_last() =~= all.take(i as int));
                assert(all.take(i + 1).last() == all[i as int]);
                lemma_canonical_is_stored(all[i as int].0, all[i as int].1);
            }
            jar_add(&mut self.jar, Cookie::canonical(pairs[i].0.clone(), pairs[i].1.clone()));
            i += 1;
        }
        assert(all.take(pairs.len() as int) =~= all);
    }

    /// Takes the cookies of a cookie string, such as `a=1; b=2`, in place of
    /// all that the store held: the string is split at `;`, each segment
    /// trimmed and parsed, and each cookie rebuilt from its name and value.
    /// A segment that the parser refuses gives no cookie.
    pub fn import(&mut self, cookie_string: &str)
        ensures
            final(self)@ == restored(imported_pairs(split(cookie_string@, ';'))),
    {
        self.jar = new_jar();
        let chars = chars_of(cookie_string);
        let bounds = split_bounds(&chars, ';');
        let ghost segments = split(cookie_string@, ';');
        let mut i: usize = 0;
        assert(segments.take(0) =~= Seq::<Seq<char>>::empty());
        while i < bounds.len()
            invariant
                i <= bounds.len(),
                chars@ == cookie_string@,
                segments == split(cookie_string@, ';'),
                bounds@.len() == segments.len(),
                forall|k: int|
                    0 <= k < bounds@.len() ==> {
                        &&& (#[trigger] bounds@[k]).0 <= bounds@[k].1 <= chars@.len()
                        &&& chars@.subrange(bounds@[k].0 as int, bounds@[k].1 as int)
                            == segments[k]
                    },
                self@ == restored(imported_pairs(segments.take(i as int))),
            decreases bounds.len() - i,
        {
            proof {
                assert(segments.take(i + 1).drop_last() =~= segments.take(i as int));
                assert(segments.take(i + 1).last() == segments[i as int]);
            }
            let (from, to) = trim_bounds(&chars, bounds[i].0, bounds[i].1);
            let segment = cookie_string.substring_char(from, to);
            assert(segment@ == trimmed(segments[i as int]));
            if let Some(c) = parse_cookie(segment) {
                proof {
                    lemma_canonical_is_stored(c.name@, c.value@);
                    let before = imported_pairs(segments.take(i as int));
                    let pair = (c.name@, c.value@);
                    assert(before.push(pair).drop_last() =~= before);
                    assert(before.push(pair).last() == pair);
                }
                jar_add(&mut self.jar, Cookie::canonical(c.name, c.value));
            }
            i += 1;
        }
        assert(segments.take(bounds.len() as int) =~= segments);
    }

    /// Whether the store holds both cookies that a restored session needs,
    /// `ct0` and `auth_token`: if not, the result is a cookie error with the
    /// message `Missing essential cookies (ct0 or auth_token)`.
    pub fn check_essential(&self) -> (result: Result<(), TwitterError>)
        ensures
            match result {
                Ok(_) => has_essential_cookies(self@),
                Err(error) => !has_essential_cookies(self@) && error.is_cookie(
                    "Missing essential cookies (ct0 or auth_token)"@,
                ),
            },
    {
        let list = jar_list(&self.jar);
        proof {
            lemma_listing_finds(views(list@), self@, "ct0"@);
            lemma_listing_finds(views(list@), self@, "auth_token"@);
        }
        let csrf = find_value(&list, "ct0");
        let session = find_value(&list, "auth_token");
        if csrf.is_some() && session.is_some() {
            Ok(())
        } else {
            Err(TwitterError::cookie("Missing essential cookies (ct0 or auth_token)"))
        }
    }
}

} // verus!
