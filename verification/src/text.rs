//! Character-level helpers: case folding, substring search, trimming and
//! splitting, all stated over `Seq<char>`.

use vstd::prelude::*;

verus! {

/// The ASCII lower-case form of a character; non-letters are unchanged.
pub open spec fn lower_char(c: char) -> char {
    if 'A' <= c && c <= 'Z' {
        ((c as u8) + 32) as char
    } else {
        c
    }
}

/// The ASCII lower-case form of a text, character by character.
pub open spec fn lowercase(s: Seq<char>) -> Seq<char> {
    Seq::new(s.len(), |i: int| lower_char(s[i]))
}

/// `needle` stands in `hay` at position `at`.
pub open spec fn occurs_at(hay: Seq<char>, needle: Seq<char>, at: int) -> bool {
    0 <= at && at + needle.len() <= hay.len() && hay.subrange(at, at + needle.len()) == needle
}

/// `needle` stands somewhere in `hay`.
pub open spec fn contains(hay: Seq<char>, needle: Seq<char>) -> bool {
    exists|at: int| occurs_at(hay, needle, at)
}

/// `s` begins with `prefix`.
pub open spec fn starts_with(s: Seq<char>, prefix: Seq<char>) -> bool {
    prefix.len() <= s.len() && s.subrange(0, prefix.len() as int) == prefix
}

/// The text of an optional string slice.
pub open spec fn optional_text(text: Option<&str>) -> Option<Seq<char>> {
    match text {
        Some(text) => Some(text@),
        None => None,
    }
}

/// Unicode white space (the characters with the `White_Space` property).
pub open spec fn is_space(c: char) -> bool {
    let n = c as u32;
    (0x09 <= n && n <= 0x0d) || n == 0x20 || n == 0x85 || n == 0xa0 || n == 0x1680 || (0x2000 <= n
        && n <= 0x200a) || n == 0x2028 || n == 0x2029 || n == 0x202f || n == 0x205f || n == 0x3000
}

/// `s` without its leading white space.
pub open spec fn trim_start(s: Seq<char>) -> Seq<char>
    decreases s.len(),
{
    if s.len() > 0 && is_space(s[0]) {
        trim_start(s.drop_first())
    } else {
        s
    }
}

/// `s` without its trailing white space.
pub open spec fn trim_end(s: Seq<char>) -> Seq<char>
    decreases s.len(),
{
    if s.len() > 0 && is_space(s.last()) {
        trim_end(s.drop_last())
    } else {
        s
    }
}

/// `s` without leading and trailing white space.
pub open spec fn trimmed(s: Seq<char>) -> Seq<char> {
    trim_end(trim_start(s))
}

/// The position of the last `sep` in `s`, or `-1` where there is none.
pub open spec fn last_index_of(s: Seq<char>, sep: char) -> int
    decreases s.len(),
{
    if s.len() == 0 {
        -1
    } else if s.last() == sep {
        s.len() - 1
    } else {
        last_index_of(s.drop_last(), sep)
    }
}

/// The pieces of `s` between occurrences of `sep`, in order. A text without
/// `sep` is one piece; `n` separators give `n + 1` pieces, empty ones included.
pub open spec fn split(s: Seq<char>, sep: char) -> Seq<Seq<char>>
    decreases s.len(),
{
    let at = last_index_of(s, sep);
    if 0 <= at < s.len() {
        split(s.take(at), sep).push(s.skip(at + 1))
    } else {
        seq![s]
    }
}

proof fn lemma_last_index_bounds(s: Seq<char>, sep: char)
    ensures
        -1 <= last_index_of(s, sep) < s.len(),
        last_index_of(s, sep) >= 0 ==> s[last_index_of(s, sep)] == sep,
        forall|i: int| last_index_of(s, sep) < i < s.len() ==> s[i] != sep,
    decreases s.len(),
{
    if s.len() > 0 && s.last() != sep {
        let front = s.drop_last();
        lemma_last_index_bounds(front, sep);
        assert forall|i: int| last_index_of(s, sep) < i < s.len() implies s[i] != sep by {
            if i < front.len() {
                assert(front[i] == s[i]);
            }
        }
    }
}

/// Appending a separator opens a new, empty piece.
proof fn lemma_split_push_separator(s: Seq<char>, sep: char)
    ensures
        split(s.push(sep), sep) == split(s, sep).push(Seq::<char>::empty()),
{
    let t = s.push(sep);
    assert(t.last() == sep);
    assert(last_index_of(t, sep) == s.len());
    assert(t.take(s.len() as int) =~= s);
    assert(t.skip(s.len() as int + 1) =~= Seq::<char>::empty());
}

/// Appending any other character extends the last piece.
proof fn lemma_split_push_other(s: Seq<char>, sep: char, c: char)
    requires
        c != sep,
    ensures
        split(s, sep).len() > 0,
        split(s.push(c), sep) == split(s, sep).drop_last().push(split(s, sep).last().push(c)),
{
    let t = s.push(c);
    lemma_last_index_bounds(s, sep);
    assert(t.drop_last() =~= s);
    let at = last_index_of(s, sep);
    assert(last_index_of(t, sep) == at);
    if at >= 0 {
        assert(t.take(at) =~= s.take(at));
        assert(t.skip(at + 1) =~= s.skip(at + 1).push(c));
        let head = split(s.take(at), sep);
        assert(head.push(s.skip(at + 1)).drop_last() =~= head);
    } else {
        assert(seq![s].drop_last().push(seq![s].last().push(c)) =~= seq![t]);
    }
}

/// A message made of a fixed beginning and a detail.
pub(crate) fn prefixed(prefix: &str, detail: &str) -> (message: String)
    ensures
        message@ == prefix@ + detail@,
        starts_with(message@, prefix@),
{
    let mut message = prefix.to_owned();
    message.append(detail);
    assert(message@.subrange(0, prefix@.len() as int) =~= prefix@);
    message
}

/// The characters of a string slice.
pub fn chars_of(s: &str) -> (chars: Vec<char>)
    ensures
        chars@ == s@,
{
    let mut chars: Vec<char> = Vec::new();
    for c in it: s.chars()
        invariant
            it.seq() == s@,
            chars@ == it.seq().take(it.index() as int),
    {
        chars.push(c);
    }
    chars
}

/// Whether two string slices hold the same text.
pub fn same_text(a: &str, b: &str) -> (same: bool)
    ensures
        same == (a@ == b@),
{
    a.to_owned() == b.to_owned()
}

/// The ASCII lower-case form of one character.
pub fn to_lower_char(c: char) -> (r: char)
    ensures
        r == lower_char(c),
{
    if 'A' <= c && c <= 'Z' {
        ((c as u8) + 32) as char
    } else {
        c
    }
}

/// The ASCII lower-case form of a text.
pub fn to_lowercase(chars: &Vec<char>) -> (lower: Vec<char>)
    ensures
        lower@ == lowercase(chars@),
{
    let mut lower: Vec<char> = Vec::new();
    let mut i: usize = 0;
    while i < chars.len()
        invariant
            i <= chars.len(),
            lower@ == lowercase(chars@).take(i as int),
        decreases chars.len() - i,
    {
        lower.push(to_lower_char(chars[i]));
        i += 1;
        assert(lower@ =~= lowercase(chars@).take(i as int));
    }
    assert(lowercase(chars@).take(chars.len() as int) =~= lowercase(chars@));
    lower
}

/// Whether `needle` stands in `hay` at position `at`.
fn matches_at(hay: &Vec<char>, needle: &Vec<char>, at: usize) -> (found: bool)
    requires
        at + needle.len() <= hay.len(),
    ensures
        found == occurs_at(hay@, needle@, at as int),
{
    let mut k: usize = 0;
    while k < needle.len()
        invariant
            k <= needle.len(),
            at + needle.len() <= hay.len(),
            forall|j: int| 0 <= j < k ==> hay@[at + j] == needle@[j],
        decreases needle.len() - k,
    {
        if hay[at + k] != needle[k] {
            assert(hay@.subrange(at as int, at + needle.len())[k as int] != needle@[k as int]);
            return false;
        }
        k += 1;
    }
    assert(hay@.subrange(at as int, at + needle.len()) =~= needle@);
    true
}

/// Whether `needle` stands somewhere in `hay`.
pub fn has_substring(hay: &Vec<char>, needle: &Vec<char>) -> (found: bool)
    ensures
        found == contains(hay@, needle@),
{
    if needle.len() > hay.len() {
        return false;
    }
    let last: usize = hay.len() - needle.len();
    let mut at: usize = 0;
    loop
        invariant
            at <= last,
            last == hay.len() - needle.len(),
            needle.len() <= hay.len(),
            forall|j: int| 0 <= j < at ==> !occurs_at(hay@, needle@, j),
        decreases last - at,
    {
        if matches_at(hay, needle, at) {
            return true;
        }
        if at == last {
            return false;
        }
        at += 1;
    }
}

/// Whether a character is Unicode white space.
pub fn is_space_char(c: char) -> (r: bool)
    ensures
        r == is_space(c),
{
    let n: u32 = c as u32;
    (0x09 <= n && n <= 0x0d) || n == 0x20 || n == 0x85 || n == 0xa0 || n == 0x1680 || (0x2000 <= n
        && n <= 0x200a) || n == 0x2028 || n == 0x2029 || n == 0x202f || n == 0x205f || n == 0x3000
}

proof fn lemma_trim_start_step(s: Seq<char>, from: int, to: int)
    requires
        0 <= from < to <= s.len(),
        is_space(s[from]),
    ensures
        trim_start(s.subrange(from, to)) == trim_start(s.subrange(from + 1, to)),
{
    assert(s.subrange(from, to).drop_first() =~= s.subrange(from + 1, to));
}

proof fn lemma_trim_end_step(s: Seq<char>, from: int, to: int)
    requires
        0 <= from < to <= s.len(),
        is_space(s[to - 1]),
    ensures
        trim_end(s.subrange(from, to)) == trim_end(s.subrange(from, to - 1)),
{
    assert(s.subrange(from, to).drop_last() =~= s.subrange(from, to - 1));
}

/// The bounds of the trimmed form of `chars[from..to]`.
pub(crate) fn trim_bounds(chars: &Vec<char>, from: usize, to: usize) -> (bounds: (usize, usize))
    requires
        from <= to <= chars.len(),
    ensures
        from <= bounds.0 <= bounds.1 <= to,
        chars@.subrange(bounds.0 as int, bounds.1 as int) == trimmed(
            chars@.subrange(from as int, to as int),
        ),
{
    let mut a: usize = from;
    while a < to && is_space_char(chars[a])
        invariant
            from <= a <= to <= chars.len(),
            trim_start(chars@.subrange(from as int, to as int)) == trim_start(
                chars@.subrange(a as int, to as int),
            ),
        decreases to - a,
    {
        proof {
            lemma_trim_start_step(chars@, a as int, to as int);
        }
        a += 1;
    }
    let mut b: usize = to;
    while a < b && is_space_char(chars[b - 1])
        invariant
            a <= b <= to <= chars.len(),
            trim_end(chars@.subrange(a as int, to as int)) == trim_end(
                chars@.subrange(a as int, b as int),
            ),
        decreases b - a,
    {
        proof {
            lemma_trim_end_step(chars@, a as int, b as int);
        }
        b -= 1;
    }
    proof {
        let rest = chars@.subrange(a as int, to as int);
        assert(trim_start(rest) == rest) by {
            if a < to {
                assert(rest[0] == chars@[a as int]);
            }
        }
        let kept = chars@.subrange(a as int, b as int);
        assert(trim_end(kept) == kept) by {
            if a < b {
                assert(kept.last() == chars@[b - 1]);
            }
        }
    }
    (a, b)
}

/// The bounds of the pieces of `chars` between occurrences of `sep`.
pub(crate) fn split_bounds(chars: &Vec<char>, sep: char) -> (bounds: Vec<(usize, usize)>)
    ensures
        bounds@.len() == split(chars@, sep).len(),
        forall|k: int|
            0 <= k < bounds@.len() ==> {
                &&& (#[trigger] bounds@[k]).0 <= bounds@[k].1 <= chars@.len()
                &&& chars@.subrange(bounds@[k].0 as int, bounds@[k].1 as int) == split(
                    chars@,
                    sep,
                )[k]
            },
{
    let mut bounds: Vec<(usize, usize)> = Vec::new();
    let mut start: usize = 0;
    let mut i: usize = 0;
    proof {
        assert(chars@.take(0) =~= Seq::<char>::empty());
        assert(chars@.subrange(0, 0) =~= Seq::<char>::empty());
        assert(split(chars@.take(0), sep) =~= seq![chars@.subrange(0, 0)]);
    }
    while i < chars.len()
        invariant
            start <= i <= chars.len(),
            split(chars@.take(i as int), sep).len() == bounds@.len() + 1,
            split(chars@.take(i as int), sep).last() == chars@.subrange(start as int, i as int),
            forall|k: int|
                0 <= k < bounds@.len() ==> {
                    &&& (#[trigger] bounds@[k]).0 <= bounds@[k].1 <= chars@.len()
                    &&& chars@.subrange(bounds@[k].0 as int, bounds@[k].1 as int) == split(
                        chars@.take(i as int),
                        sep,
                    )[k]
                },
        decreases chars.len() - i,
    {
        let ghost before = chars@.take(i as int);
        let ghost pieces = split(before, sep);
        let c = chars[i];
        proof {
            assert(chars@.take(i + 1) =~= before.push(c));
        }
        if c == sep {
            proof {
                lemma_split_push_separator(before, sep);
                assert(chars@.subrange(i + 1, i + 1) =~= Seq::<char>::empty());
            }
            bounds.push((start, i));
            start = i + 1;
        } else {
            proof {
                lemma_split_push_other(before, sep, c);
                assert(chars@.subrange(start as int, i + 1) =~= chars@.subrange(
                    start as int,
                    i as int,
                ).push(c));
            }
        }
        i += 1;
    }
    proof {
        assert(chars@.take(chars.len() as int) =~= chars@);
    }
    bounds.push((start, i));
    bounds
}

} // verus!
