//! Request and response headers: what a header name and a header value may
//! hold, and the reading and filling of a `reqwest::header::HeaderMap`.

use crate::error::TwitterError;
use crate::text::lowercase;
use reqwest::header::HeaderMap;
use reqwest::header::HeaderName;
use reqwest::header::HeaderValue;
use vstd::prelude::*;
use vstd::utf8::encode_utf8;

verus! {

/// A character that a header name may hold.
pub open spec fn is_name_char(c: char) -> bool {
    ('a' <= c && c <= 'z') || ('A' <= c && c <= 'Z') || ('0' <= c && c <= '9') || c == '!' || c
        == '#' || c == '$' || c == '%' || c == '&' || c == '\'' || c == '*' || c == '+' || c == '-'
        || c == '.' || c == '^' || c == '_' || c == '`' || c == '|' || c == '~'
}

/// A text that can name a header: not empty, under 65536 characters, of name
/// characters only.
pub open spec fn is_header_name(name: Seq<char>) -> bool {
    &&& 0 < name.len() < 65536
    &&& forall|i: int| 0 <= i < name.len() ==> is_name_char(#[trigger] name[i])
}

/// A character that a header value may hold: a tab, or anything from the
/// space on but the delete character.
pub open spec fn is_value_char(c: char) -> bool {
    c == '\t' || (' ' <= c && c != '\x7f')
}

/// A text that can stand as a header value.
pub open spec fn is_header_text(value: Seq<char>) -> bool {
    forall|i: int| 0 <= i < value.len() ==> is_value_char(#[trigger] value[i])
}

/// Bytes that read as text: tabs and the visible ASCII characters only.
pub open spec fn is_visible(bytes: Seq<u8>) -> bool {
    forall|i: int| 0 <= i < bytes.len() ==> (#[trigger] bytes[i] == 9 || (32 <= bytes[i] < 127))
}

/// A header value read as text; `None` where it holds any other byte.
pub open spec fn visible_text(bytes: Seq<u8>) -> Option<Seq<char>> {
    if is_visible(bytes) {
        Some(Seq::new(bytes.len(), |i: int| bytes[i] as char))
    } else {
        None
    }
}

/// Header values read as texts, in order.
pub open spec fn visible_texts(values: Seq<Seq<u8>>) -> Seq<Option<Seq<char>>> {
    Seq::new(values.len(), |i: int| visible_text(values[i]))
}

/// The values that `fields` holds under `name`, whatever the letter case of
/// `name`; none where the header is absent.
pub open spec fn values_named(fields: Map<Seq<char>, Seq<Seq<u8>>>, name: Seq<char>) -> Seq<
    Seq<u8>,
> {
    if fields.contains_key(lowercase(name)) {
        fields[lowercase(name)]
    } else {
        Seq::empty()
    }
}

/// `fields` with the header `name` set to the single value `value`.
pub open spec fn with_header(
    fields: Map<Seq<char>, Seq<Seq<u8>>>,
    name: Seq<char>,
    value: Seq<char>,
) -> Map<Seq<char>, Seq<Seq<u8>>> {
    fields.insert(lowercase(name), seq![encode_utf8(value)])
}

/// `fields` with each entry of `entries` set in turn.
pub open spec fn with_headers(
    fields: Map<Seq<char>, Seq<Seq<u8>>>,
    entries: Seq<(Seq<char>, Seq<char>)>,
) -> Map<Seq<char>, Seq<Seq<u8>>>
    decreases entries.len(),
{
    if entries.len() == 0 {
        fields
    } else {
        with_header(with_headers(fields, entries.drop_last()), entries.last().0, entries.last().1)
    }
}

/// The texts of a list of (name, value) pairs, in order.
pub open spec fn pair_views(pairs: Seq<(String, String)>) -> Seq<(Seq<char>, Seq<char>)> {
    Seq::new(pairs.len(), |i: int| (pairs[i].0@, pairs[i].1@))
}

/// The texts of a list of optional strings, in order.
pub open spec fn option_views(list: Seq<Option<String>>) -> Seq<Option<Seq<char>>> {
    Seq::new(
        list.len(),
        |i: int|
            match list[i] {
                Some(text) => Some(text@),
                None => None,
            },
    )
}

/// Every name of `entries` can name a header.
pub open spec fn names_valid(entries: Seq<(Seq<char>, Seq<char>)>) -> bool {
    forall|i: int| 0 <= i < entries.len() ==> is_header_name((#[trigger] entries[i]).0)
}

/// Every value of `entries` can stand as a header value.
pub open spec fn values_valid(entries: Seq<(Seq<char>, Seq<char>)>) -> bool {
    forall|i: int| 0 <= i < entries.len() ==> is_header_text((#[trigger] entries[i]).1)
}

/// `reqwest::header::HeaderMap`, the header collection of the `http` crate.
#[verifier::external_type_specification]
#[verifier::external_body]
#[verifier::reject_recursive_types(T)]
pub struct ExHeaderMap<T>(reqwest::header::HeaderMap<T>);

/// `reqwest::header::HeaderValue`, the kind of value that a header map of
/// requests and responses holds.
#[verifier::external_type_specification]
#[verifier::external_body]
pub struct ExHeaderValue(reqwest::header::HeaderValue);

/// The headers that a map holds: under each name, in lower case, its values
/// in order, each as bytes.
pub uninterp spec fn header_fields(headers: HeaderMap) -> Map<Seq<char>, Seq<Seq<u8>>>;

/// The number of names under which a map holds values.
pub uninterp spec fn header_count(headers: HeaderMap) -> nat;

/// A map that holds fewer names than this takes a further entry: it refuses
/// one only when its table cannot grow, and the table of a map with fewer
/// names never has to.
pub const SAFE_HEADER_COUNT: usize = 6554;

/// How an attempt to set a header ended.
pub(crate) enum HeaderPut {
    /// The header is set.
    Stored,
    /// The value holds a character that no header value may hold.
    BadValue,
    /// The name cannot name a header.
    BadName,
    /// The map took no further entry.
    Full,
}

/// `HeaderMap::new`: a map that holds no header under no name.
#[verifier::external_body]
fn new_header_map() -> (headers: HeaderMap)
    ensures
        header_fields(headers) == (Map::<Seq<char>, Seq<Seq<u8>>>::empty()),
        header_count(headers) == 0,
{
    HeaderMap::new()
}

/// A new header map: it holds no header, under no name.
pub fn empty_headers() -> (headers: HeaderMap)
    ensures
        header_fields(headers) == (Map::<Seq<char>, Seq<Seq<u8>>>::empty()),
        header_count(headers) == 0,
{
    new_header_map()
}

/// `HeaderMap::try_insert`, with the value made by `HeaderValue::from_str`
/// and the name by `HeaderName::from_bytes`. The value is looked at first,
/// then the name. A header that is set has the new value as its only value,
/// under the name in lower case, and adds at most one name to the map; any
/// other outcome leaves the map as it was. The map refuses an entry only
/// when its table of 32768 slots would have to grow, or when it holds 32768
/// names: both take at least 6554 names, so a map with fewer never refuses.
#[verifier::external_body]
pub(crate) fn put_header(headers: &mut HeaderMap, name: &str, value: &str) -> (outcome: HeaderPut)
    ensures
        outcome is BadValue <==> !is_header_text(value@),
        outcome is BadName <==> (is_header_text(value@) && !is_header_name(name@)),
        header_fields(*final(headers)) == (if outcome is Stored {
            with_header(header_fields(*old(headers)), name@, value@)
        } else {
            header_fields(*old(headers))
        }),
        header_count(*final(headers)) <= header_count(*old(headers)) + (if outcome is Stored {
            1nat
        } else {
            0nat
        }),
        header_count(*old(headers)) < SAFE_HEADER_COUNT ==> !(outcome is Full),
{
    let Ok(value) = HeaderValue::from_str(value) else {
        return HeaderPut::BadValue;
    };
    let Ok(name) = HeaderName::from_bytes(name.as_bytes()) else {
        return HeaderPut::BadName;
    };
    match headers.try_insert(name, value) {
        Ok(_) => HeaderPut::Stored,
        Err(_) => HeaderPut::Full,
    }
}

/// `HeaderMap::get_all` with `HeaderValue::to_str` on each value: the values
/// under `name` in order, each as text, `None` for a value that holds a byte
/// other than a tab or a visible ASCII character.
#[verifier::external_body]
pub(crate) fn header_texts(headers: &HeaderMap, name: &str) -> (texts: Vec<Option<String>>)
    requires
        is_header_name(name@),
    ensures
        option_views(texts@) == visible_texts(values_named(header_fields(*headers), name@)),
{
    headers.get_all(name).iter().map(|value| value.to_str().ok().map(String::from)).collect()
}

/// Whether a text can stand as a header value.
pub fn is_valid_header_text(value: &str) -> (valid: bool)
    ensures
        valid == is_header_text(value@),
{
    let chars = crate::text::chars_of(value);
    let mut i: usize = 0;
    while i < chars.len()
        invariant
            i <= chars.len(),
            chars@ == value@,
            forall|k: int| 0 <= k < i ==> is_value_char(#[trigger] chars@[k]),
        decreases chars.len() - i,
    {
        let c = chars[i];
        if !(c == '\t' || (' ' <= c && c != '\x7f')) {
            return false;
        }
        i += 1;
    }
    true
}

/// How setting `entries` in a map, in order, can end, with the map's
/// headers `before` and `after`.
///
/// With `Ok`, every entry is set. An error comes with the entries before the
/// failing one set and nothing else changed: the message is
/// `failed to parse header value` where the failing entry's value cannot
/// stand as a header value, and `size overflows MAX_SIZE` where the map took
/// no further entry. An entry whose value cannot stand as a header value
/// always ends in an error.
pub open spec fn sets_headers(
    result: Result<(), TwitterError>,
    before: Map<Seq<char>, Seq<Seq<u8>>>,
    after: Map<Seq<char>, Seq<Seq<u8>>>,
    entries: Seq<(Seq<char>, Seq<char>)>,
) -> bool {
    &&& match result {
        Ok(_) => values_valid(entries) && after == with_headers(before, entries),
        Err(error) => exists|k: int|
            {
                &&& 0 <= k < entries.len()
                &&& values_valid(#[trigger] entries.take(k))
                &&& after == with_headers(before, entries.take(k))
                &&& if is_header_text(entries[k].1) {
                    error.is_auth("size overflows MAX_SIZE"@)
                } else {
                    error.is_auth("failed to parse header value"@)
                }
            },
    }
    &&& !values_valid(entries) ==> result is Err
}

/// A map that holds `count` names takes `more` entries without fail.
pub open spec fn has_room(count: nat, more: nat) -> bool {
    count + more < SAFE_HEADER_COUNT
}

/// Sets each entry of `entries` in `headers`, in order, and stops at the
/// first that cannot be set: see `sets_headers`. Where the map has room for
/// the entries and every value can stand as a header value, all are set.
pub(crate) fn set_headers(
    headers: &mut HeaderMap,
    entries: &Vec<(String, String)>,
) -> (result: Result<(), TwitterError>)
    requires
        names_valid(pair_views(entries@)),
    ensures
        sets_headers(
            result,
            header_fields(*old(headers)),
            header_fields(*final(headers)),
            pair_views(entries@),
        ),
        has_room(header_count(*old(headers)), entries@.len()) && values_valid(
            pair_views(entries@),
        ) ==> result is Ok,
        has_room(header_count(*old(headers)), entries@.len()) ==> (result matches Err(error)
            ==> error.is_auth("failed to parse header value"@)),
        header_count(*final(headers)) <= header_count(*old(headers)) + entries@.len(),
{
    let ghost all = pair_views(entries@);
    let mut i: usize = 0;
    proof {
        assert(all.take(0) =~= Seq::<(Seq<char>, Seq<char>)>::empty());
    }
    while i < entries.len()
        invariant
            i <= entries.len(),
            all == pair_views(entries@),
            names_valid(all),
            values_valid(all.take(i as int)),
            header_count(*headers) <= header_count(*old(headers)) + i,
            header_fields(*headers) == with_headers(
                header_fields(*old(headers)),
                all.take(i as int),
            ),
        decreases entries.len() - i,
    {
        let ghost before = header_fields(*headers);
        proof {
            assert(all.take(i + 1).drop_last() =~= all.take(i as int));
            assert(all.take(i + 1).last() == all[i as int]);
            assert(is_header_name(all[i as int].0));
        }
        match put_header(headers, entries[i].0.as_str(), entries[i].1.as_str()) {
            HeaderPut::Stored => {
                proof {
                    assert forall|k: int| 0 <= k < i + 1 implies is_header_text(
                        (#[trigger] all.take(i + 1)[k]).1,
                    ) by {
                        if k < i {
                            assert(all.take(i as int)[k] == all.take(i + 1)[k]);
                        }
                    }
                }
            },
            HeaderPut::BadValue => {
                return Err(TwitterError::auth("failed to parse header value"));
            },
            HeaderPut::BadName => {
                // `names_valid` rules this outcome out.
                assert(false);
                return Err(TwitterError::auth("invalid HTTP header name"));
            },
            HeaderPut::Full => {
                return Err(TwitterError::auth("size overflows MAX_SIZE"));
            },
        }
        i += 1;
    }
    proof {
        assert(all.take(entries.len() as int) =~= all);
    }
    Ok(())
}

/// The names of two lists are valid where those of each are.
pub(crate) proof fn lemma_names_valid_concat(
    first: Seq<(Seq<char>, Seq<char>)>,
    second: Seq<(Seq<char>, Seq<char>)>,
)
    requires
        names_valid(first),
        names_valid(second),
    ensures
        names_valid(first + second),
{
    assert forall|i: int| 0 <= i < (first + second).len() implies is_header_name(
        (#[trigger] (first + second)[i]).0,
    ) by {
        if i < first.len() {
            assert((first + second)[i] == first[i]);
        } else {
            assert((first + second)[i] == second[i - first.len()]);
        }
    }
}

/// The values of two lists are valid exactly where those of each are.
pub(crate) proof fn lemma_values_valid_concat(
    first: Seq<(Seq<char>, Seq<char>)>,
    second: Seq<(Seq<char>, Seq<char>)>,
)
    ensures
        values_valid(first + second) <==> values_valid(first) && values_valid(second),
{
    let both = first + second;
    if values_valid(both) {
        assert forall|i: int| 0 <= i < first.len() implies is_header_text(
            (#[trigger] first[i]).1,
        ) by {
            assert(both[i] == first[i]);
        }
        assert forall|i: int| 0 <= i < second.len() implies is_header_text(
            (#[trigger] second[i]).1,
        ) by {
            assert(both[i + first.len()] == second[i]);
        }
    }
    if values_valid(first) && values_valid(second) {
        assert forall|i: int| 0 <= i < both.len() implies is_header_text(
            (#[trigger] both[i]).1,
        ) by {
            if i < first.len() {
                assert(both[i] == first[i]);
            } else {
                assert(both[i] == second[i - first.len()]);
            }
        }
    }
}

/// No entry of `entries` has the name `key`, whatever the letter case.
pub open spec fn misses(entries: Seq<(Seq<char>, Seq<char>)>, key: Seq<char>) -> bool {
    forall|i: int| 0 <= i < entries.len() ==> lowercase((#[trigger] entries[i]).0) != key
}

/// Setting two lists of entries one after the other is setting their
/// concatenation.
pub(crate) proof fn lemma_with_headers_concat(
    fields: Map<Seq<char>, Seq<Seq<u8>>>,
    first: Seq<(Seq<char>, Seq<char>)>,
    second: Seq<(Seq<char>, Seq<char>)>,
)
    ensures
        with_headers(fields, first + second) == with_headers(with_headers(fields, first), second),
    decreases second.len(),
{
    if second.len() == 0 {
        assert(first + second =~= first);
    } else {
        lemma_with_headers_concat(fields, first, second.drop_last());
        assert((first + second).drop_last() =~= first + second.drop_last());
        assert((first + second).last() == second.last());
    }
}

/// Setting entries leaves every header alone that none of them names.
pub(crate) proof fn lemma_with_headers_misses(
    fields: Map<Seq<char>, Seq<Seq<u8>>>,
    entries: Seq<(Seq<char>, Seq<char>)>,
    key: Seq<char>,
)
    requires
        misses(entries, key),
    ensures
        with_headers(fields, entries).contains_key(key) == fields.contains_key(key),
        fields.contains_key(key) ==> with_headers(fields, entries)[key] == fields[key],
    decreases entries.len(),
{
    if entries.len() > 0 {
        let front = entries.drop_last();
        assert forall|i: int| 0 <= i < front.len() implies lowercase((#[trigger] front[i]).0)
            != key by {
            assert(front[i] == entries[i]);
        }
        lemma_with_headers_misses(fields, front, key);
        assert(entries.last() == entries[entries.len() - 1]);
    }
}

/// After entries were set, a header holds the value of the last entry that
/// names it, and that alone.
pub(crate) proof fn lemma_with_headers_last(
    fields: Map<Seq<char>, Seq<Seq<u8>>>,
    entries: Seq<(Seq<char>, Seq<char>)>,
    at: int,
)
    requires
        0 <= at < entries.len(),
        forall|j: int|
            at < j < entries.len() ==> lowercase((#[trigger] entries[j]).0) != lowercase(
                entries[at].0,
            ),
    ensures
        values_named(with_headers(fields, entries), entries[at].0) == seq![
            encode_utf8(entries[at].1),
        ],
    decreases entries.len(),
{
    if at < entries.len() - 1 {
        let front = entries.drop_last();
        assert(front[at] == entries[at]);
        assert forall|j: int| at < j < front.len() implies lowercase((#[trigger] front[j]).0)
            != lowercase(front[at].0) by {
            assert(front[j] == entries[j]);
        }
        lemma_with_headers_last(fields, front, at);
        assert(entries.last() == entries[entries.len() - 1]);
    } else {
        assert(entries.last() == entries[at]);
    }
}

} // verus!
