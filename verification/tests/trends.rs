use twitter_auth::trends::{
    trend_names, Entry, EntryContent, Instruction, ItemContent, Timeline, TimelineData,
    TrendsData, TrendsResponse,
};

fn entry(item_type: &str, name: Option<&str>) -> Entry {
    Entry {
        content: Some(EntryContent {
            item_content: Some(ItemContent {
                item_type: item_type.to_string(),
                name: name.map(String::from),
                trend_metadata: None,
            }),
        }),
    }
}

fn response(instructions: Vec<Instruction>) -> TrendsResponse {
    TrendsResponse { data: TrendsData { timeline: Timeline { timeline: TimelineData { instructions } } } }
}

#[test]
fn trend_names_keeps_named_trends_in_order() {
    let r = response(vec![
        Instruction::TimelineClearCache,
        Instruction::TimelineAddEntries {
            entries: vec![
                entry("TimelineTrend", Some("rust")),
                entry("TimelineTweet", Some("skipped")),
                entry("TimelineTrend", None),
                Entry { content: None },
                Entry { content: Some(EntryContent { item_content: None }) },
                entry("TimelineTrend", Some("verus")),
            ],
        },
        Instruction::TimelineTerminateTimeline { direction: "Bottom".to_string() },
        Instruction::TimelineAddEntries { entries: vec![entry("TimelineTrend", Some("z3"))] },
    ]);
    assert_eq!(trend_names(&r), vec!["rust".to_string(), "verus".to_string(), "z3".to_string()]);
}

#[test]
fn trend_names_of_empty_response_is_empty() {
    assert!(trend_names(&response(vec![])).is_empty());
}
