use twitter_auth::explore::{
    explore_timelines, ExploreBody, ExploreData, ExplorePage, ExploreResponse, TimelineId,
    TimelineSection,
};

fn section(id: &str, label: &str, timeline: &str) -> TimelineSection {
    TimelineSection {
        id: id.to_string(),
        label_text: label.to_string(),
        timeline: TimelineId { id: timeline.to_string() },
    }
}

fn response(timelines: Vec<TimelineSection>) -> ExploreResponse {
    ExploreResponse {
        data: ExploreData {
            explore_page: ExplorePage {
                id: "page".to_string(),
                body: ExploreBody { typename: "TimelineTimelineTabs".to_string(), timelines },
            },
        },
    }
}

#[test]
fn timelines_take_the_timeline_id_and_the_section_label() {
    let listed = explore_timelines(&response(vec![
        section("s1", "For You", "t-for-you"),
        section("s2", "Trending", "t-trending"),
    ]));
    assert_eq!(listed.len(), 2);
    assert_eq!((listed[0].id.as_str(), listed[0].name.as_str()), ("t-for-you", "For You"));
    assert_eq!((listed[1].id.as_str(), listed[1].name.as_str()), ("t-trending", "Trending"));
}

#[test]
fn no_sections_give_no_timelines() {
    assert!(explore_timelines(&response(vec![])).is_empty());
}
