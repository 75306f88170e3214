//! Trends of a timeline: the shape of the response and the trend names in it.

use crate::features::{feature_flags, features, flags_object};
use crate::json::{field_views, object2, Json, JsonView};
use crate::text::same_text;
use vstd::prelude::*;

verus! {

#[derive(Debug, Clone)]
pub struct TrendsResponse {
    pub data: TrendsData,
}

#[derive(Debug, Clone)]
pub struct TrendsData {
    pub timeline: Timeline,
}

#[derive(Debug, Clone)]
pub struct Timeline {
    pub timeline: TimelineData,
}

#[derive(Debug, Clone)]
pub struct TimelineData {
    pub instructions: Vec<Instruction>,
}

#[derive(Debug, Clone)]
pub enum Instruction {
    TimelineAddEntries { entries: Vec<Entry> },
    TimelineClearCache,
    TimelineTerminateTimeline { direction: String },
}

#[derive(Debug, Clone)]
pub struct Entry {
    pub content: Option<EntryContent>,
}

#[derive(Debug, Clone)]
pub struct EntryContent {
    pub item_content: Option<ItemContent>,
}

#[derive(Debug, Clone)]
pub struct ItemContent {
    pub item_type: String,
    pub name: Option<String>,
    pub trend_metadata: Option<TrendMetadata>,
}

#[derive(Debug, Clone)]
pub struct TrendMetadata {
    pub domain_context: Option<String>,
    pub meta_description: Option<String>,
}

/// The texts of a list of strings, in order.
pub open spec fn texts(list: Seq<String>) -> Seq<Seq<char>> {
    Seq::new(list.len(), |i: int| list[i]@)
}

/// The trend that an entry names: the name of its item, where the entry has
/// content, the content has an item of type `TimelineTrend`, and the item
/// has a name.
pub open spec fn trend_of(entry: Entry) -> Option<Seq<char>> {
    match entry.content {
        Some(content) => match content.item_content {
            Some(item) => match item.name {
                Some(name) => if item.item_type@ == "TimelineTrend"@ {
                    Some(name@)
                } else {
                    None
                },
                None => None,
            },
            None => None,
        },
        None => None,
    }
}

/// The trends that a list of entries names, in order.
pub open spec fn trends_in(entries: Seq<Entry>) -> Seq<Seq<char>>
    decreases entries.len(),
{
    if entries.len() == 0 {
        Seq::empty()
    } else {
        let before = trends_in(entries.drop_last());
        match trend_of(entries.last()) {
            Some(name) => before.push(name),
            None => before,
        }
    }
}

/// The trends that a list of instructions names, in order: those of the
/// entries of each instruction that adds entries.
pub open spec fn trends_of(instructions: Seq<Instruction>) -> Seq<Seq<char>>
    decreases instructions.len(),
{
    if instructions.len() == 0 {
        Seq::empty()
    } else {
        let before = trends_of(instructions.drop_last());
        match instructions.last() {
            Instruction::TimelineAddEntries { entries } => before + trends_in(entries@),
            _ => before,
        }
    }
}

/// The trend that an entry names, if any.
pub fn entry_trend(entry: &Entry) -> (trend: Option<String>)
    ensures
        match trend {
            Some(name) => trend_of(*entry) == Some(name@),
            None => trend_of(*entry) is None,
        },
{
    if let Some(content) = &entry.content {
        if let Some(item) = &content.item_content {
            if same_text(item.item_type.as_str(), "TimelineTrend") {
                if let Some(name) = &item.name {
                    return Some(name.clone());
                }
            }
        }
    }
    None
}

/// The names of the trends in a response, in the response's order.
pub fn trend_names(response: &TrendsResponse) -> (names: Vec<String>)
    ensures
        texts(names@) == trends_of(response.data.timeline.timeline.instructions@),
{
    let instructions = &response.data.timeline.timeline.instructions;
    let mut names: Vec<String> = Vec::new();
    let mut i: usize = 0;
    assert(instructions@.take(0) =~= Seq::<Instruction>::empty());
    assert(texts(names@) =~= Seq::<Seq<char>>::empty());
    while i < instructions.len()
        invariant
            i <= instructions.len(),
            texts(names@) == trends_of(instructions@.take(i as int)),
        decreases instructions.len() - i,
    {
        let ghost before = texts(names@);
        assert(instructions@.take(i + 1).drop_last() =~= instructions@.take(i as int));
        if let Instruction::TimelineAddEntries { entries } = &instructions[i] {
            let mut j: usize = 0;
            assert(entries@.take(0) =~= Seq::<Entry>::empty());
            assert(before + trends_in(entries@.take(0)) =~= before);
            while j < entries.len()
                invariant
                    j <= entries.len(),
                    texts(names@) == before + trends_in(entries@.take(j as int)),
                decreases entries.len() - j,
            {
                assert(entries@.take(j + 1).drop_last() =~= entries@.take(j as int));
                let ghost so_far = texts(names@);
                if let Some(name) = entry_trend(&entries[j]) {
                    names.push(name);
                    assert(texts(names@) =~= so_far.push(name@));
                }
                j += 1;
                assert(texts(names@) =~= before + trends_in(entries@.take(j as int)));
            }
            assert(entries@.take(entries.len() as int) =~= entries@);
        }
        i += 1;
    }
    assert(instructions@.take(instructions.len() as int) =~= instructions@);
    names
}

/// The variables of the request for the trends of a timeline: the
/// timeline, the number of trends asked for, a fixed cursor, and the wish
/// for the fields of promoted posts.
pub open spec fn trends_variables(timeline_id: Seq<char>, count: int) -> JsonView {
    JsonView::Object(
        seq![
            ("timelineId"@, JsonView::Text(timeline_id)),
            ("count"@, JsonView::Number(count)),
            ("cursor"@, JsonView::Text("DAAJAAA"@)),
            ("withQuickPromoteEligibilityTweetFields"@, JsonView::Bool(true)),
        ],
    )
}

/// The body of the request for the trends of a timeline: its variables and
/// the feature flags.
pub open spec fn trends_request(timeline_id: Seq<char>, count: int) -> JsonView {
    object2(
        "variables"@,
        trends_variables(timeline_id, count),
        "features"@,
        flags_object(feature_flags()),
    )
}

/// The body of the request for `count` trends of the timeline `timeline_id`.
pub fn trends_request_body(timeline_id: &str, count: i16) -> (body: Json)
    ensures
        body@ == trends_request(timeline_id@, count as int),
{
    let fields: Vec<(String, Json)> = vec![
        ("timelineId".to_owned(), Json::text(timeline_id)),
        ("count".to_owned(), Json::Number(count as i64)),
        ("cursor".to_owned(), Json::text("DAAJAAA")),
        ("withQuickPromoteEligibilityTweetFields".to_owned(), Json::Bool(true)),
    ];
    assert(field_views(fields@) =~= trends_variables(timeline_id@, count as int)->Object_0);
    Json::object2("variables", Json::Object(fields), "features", features())
}

} // verus!
