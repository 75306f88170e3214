//! The saved form of a cookie store: a list of (name, value) pairs, written
//! and read as JSON text by `serde_json`.

use crate::cookies::{canonical, lists, CookieView};
use crate::error::TwitterError;
use crate::headers::pair_views;
use crate::text::{prefixed, starts_with};
use vstd::prelude::*;

verus! {

/// `serde_json::Error`, the error of writing and of reading JSON text.
#[verifier::external_type_specification]
#[verifier::external_body]
pub struct ExJsonError(serde_json::Error);

/// The text that `serde_json::to_string_pretty` writes for a list of pairs:
/// a JSON array of two-element arrays of strings.
pub uninterp spec fn encoded_pairs(pairs: Seq<(Seq<char>, Seq<char>)>) -> Seq<char>;

/// The list of pairs that `serde_json::from_str` reads from a text; `None`
/// where it reports an error.
pub uninterp spec fn decoded_pairs(text: Seq<char>) -> Option<Seq<(Seq<char>, Seq<char>)>>;

/// `serde_json::to_string_pretty` on a list of pairs of strings. It reports
/// an error only where a value's own way of being written fails or a map
/// has a key that is no string; a list of pairs of strings has neither, so
/// the text is always written.
#[verifier::external_body]
fn encode_pairs(pairs: &Vec<(String, String)>) -> (written: Result<String, serde_json::Error>)
    ensures
        written is Ok,
        written matches Ok(text) ==> text@ == encoded_pairs(pair_views(pairs@)),
{
    serde_json::to_string_pretty(pairs)
}

/// `serde_json::from_str` for a list of pairs of strings.
#[verifier::external_body]
fn decode_pairs(text: &str) -> (read: Result<Vec<(String, String)>, serde_json::Error>)
    ensures
        match read {
            Ok(pairs) => decoded_pairs(text@) == Some(pair_views(pairs@)),
            Err(_) => decoded_pairs(text@) is None,
        },
{
    serde_json::from_str(text)
}

/// The text that `serde_json::Error` displays.
#[verifier::external_body]
fn json_error_text(error: &serde_json::Error) -> String {
    error.to_string()
}

/// The (name, value) pairs of a list of cookies, in order.
pub open spec fn pairs_of(order: Seq<CookieView>) -> Seq<(Seq<char>, Seq<char>)> {
    Seq::new(order.len(), |i: int| (order[i].name, order[i].value))
}

/// The store that a list of pairs is restored to: one cookie for each name,
/// with the value of the last pair of that name and the attributes that
/// every rebuilt cookie gets.
pub open spec fn restored(pairs: Seq<(Seq<char>, Seq<char>)>) -> Map<Seq<char>, CookieView>
    decreases pairs.len(),
{
    if pairs.len() == 0 {
        Map::empty()
    } else {
        restored(pairs.drop_last()).insert(
            pairs.last().0,
            canonical(pairs.last().0, pairs.last().1),
        )
    }
}

/// The (name, value) pairs that a store holds, as a set.
pub open spec fn name_values(jar: Map<Seq<char>, CookieView>) -> Set<(Seq<char>, Seq<char>)> {
    Set::new(
        |pair: (Seq<char>, Seq<char>)|
            jar.contains_key(pair.0) && jar[pair.0].name == pair.0 && jar[pair.0].value == pair.1,
    )
}

/// The value of the last pair named `name`, if there is one.
pub open spec fn last_value(pairs: Seq<(Seq<char>, Seq<char>)>, name: Seq<char>) -> Option<
    Seq<char>,
>
    decreases pairs.len(),
{
    if pairs.len() == 0 {
        None
    } else if pairs.last().0 == name {
        Some(pairs.last().1)
    } else {
        last_value(pairs.drop_last(), name)
    }
}

/// A restored store holds a name exactly when some pair has it, and then
/// with the value of the last such pair.
pub proof fn lemma_restored_entry(pairs: Seq<(Seq<char>, Seq<char>)>, name: Seq<char>)
    ensures
        restored(pairs).contains_key(name) <==> last_value(pairs, name) is Some,
        last_value(pairs, name) matches Some(value) ==> restored(pairs)[name] == canonical(
            name,
            value,
        ),
    decreases pairs.len(),
{
    if pairs.len() > 0 {
        lemma_restored_entry(pairs.drop_last(), name);
    }
}

proof fn lemma_last_value_absent(order: Seq<CookieView>, name: Seq<char>)
    requires
        forall|i: int| 0 <= i < order.len() ==> (#[trigger] order[i]).name != name,
    ensures
        last_value(pairs_of(order), name) is None,
    decreases order.len(),
{
    if order.len() > 0 {
        let front = order.drop_last();
        assert(pairs_of(order).drop_last() =~= pairs_of(front));
        assert(pairs_of(order).last().0 == order[order.len() - 1].name);
        assert forall|i: int| 0 <= i < front.len() implies (#[trigger] front[i]).name != name by {
            assert(front[i] == order[i]);
        }
        lemma_last_value_absent(front, name);
    }
}

proof fn lemma_last_value_found(order: Seq<CookieView>, at: int)
    requires
        0 <= at < order.len(),
        forall|i: int, j: int|
            0 <= i < j < order.len() ==> (#[trigger] order[i]).name != (#[trigger] order[j]).name,
    ensures
        last_value(pairs_of(order), order[at].name) == Some(order[at].value),
    decreases order.len(),
{
    let front = order.drop_last();
    assert(pairs_of(order).drop_last() =~= pairs_of(front));
    assert(pairs_of(order).last() == (order[order.len() - 1].name, order[order.len() - 1].value));
    if at < order.len() - 1 {
        assert(order[at].name != order[order.len() - 1].name);
        assert forall|i: int, j: int| 0 <= i < j < front.len() implies (#[trigger] front[i]).name
            != (#[trigger] front[j]).name by {
            assert(front[i] == order[i] && front[j] == order[j]);
        }
        assert(front[at] == order[at]);
        lemma_last_value_found(front, at);
    }
}

/// Saving a store and restoring what was saved keeps its (name, value)
/// pairs: whatever the order in which the store lists its cookies, the store
/// restored from the listed pairs holds the same set of pairs as the store
/// that was listed.
pub proof fn lemma_restore_keeps_pairs(jar: Map<Seq<char>, CookieView>, order: Seq<CookieView>)
    requires
        lists(order, jar),
    ensures
        name_values(restored(pairs_of(order))) == name_values(jar),
        restored(pairs_of(order)).dom() == jar.dom(),
{
    let pairs = pairs_of(order);
    let back = restored(pairs);
    assert forall|name: Seq<char>| back.contains_key(name) <==> jar.contains_key(name) by {
        lemma_restored_entry(pairs, name);
        if jar.contains_key(name) {
            let i = choose|i: int| 0 <= i < order.len() && (#[trigger] order[i]).name == name;
            lemma_last_value_found(order, i);
        } else {
            assert forall|i: int| 0 <= i < order.len() implies (#[trigger] order[i]).name
                != name by {
                assert(jar.contains_key(order[i].name));
            }
            lemma_last_value_absent(order, name);
        }
    }
    assert(back.dom() =~= jar.dom());
    assert forall|pair: (Seq<char>, Seq<char>)|
        name_values(back).contains(pair) <==> name_values(jar).contains(pair) by {
        lemma_restored_entry(pairs, pair.0);
        if jar.contains_key(pair.0) {
            let i = choose|i: int| 0 <= i < order.len() && (#[trigger] order[i]).name == pair.0;
            lemma_last_value_found(order, i);
            assert(jar[order[i].name] == order[i]);
        }
    }
    assert(name_values(back) =~= name_values(jar));
}

/// The saved form of a list of (name, value) pairs: their JSON text (see
/// `encoded_pairs`). The text is always written.
pub fn save_pairs(pairs: &Vec<(String, String)>) -> (result: Result<String, TwitterError>)
    ensures
        result matches Ok(text) && text@ == encoded_pairs(pair_views(pairs@)),
{
    match encode_pairs(pairs) {
        Ok(text) => Ok(text),
        Err(error) => Err(
            TwitterError::Cookie(
                prefixed("Failed to serialize cookies: ", json_error_text(&error).as_str()),
            ),
        ),
    }
}

/// The list of (name, value) pairs that a saved form holds (see
/// `decoded_pairs`). Where the text cannot be read as such a list, the
/// result is a cookie error that begins with `failure`.
pub fn load_pairs(text: &str, failure: &str) -> (result: Result<
    Vec<(String, String)>,
    TwitterError,
>)
    ensures
        match result {
            Ok(pairs) => decoded_pairs(text@) == Some(pair_views(pairs@)),
            Err(error) => decoded_pairs(text@) is None && error is Cookie && starts_with(
                error.text(),
                failure@,
            ),
        },
{
    match decode_pairs(text) {
        Ok(pairs) => Ok(pairs),
        Err(error) => Err(
            TwitterError::Cookie(prefixed(failure, json_error_text(&error).as_str())),
        ),
    }
}

} // verus!
