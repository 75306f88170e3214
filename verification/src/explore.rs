//! The explore page: the shape of its response and the timelines it lists.

use crate::features::{feature_flags, features, flags_object};
use crate::json::{object1, object2, Json, JsonView};
use vstd::prelude::*;

verus! {

#[derive(Debug, Clone)]
pub struct ExploreResponse {
    pub data: ExploreData,
}

#[derive(Debug, Clone)]
pub struct ExploreData {
    pub explore_page: ExplorePage,
}

#[derive(Debug, Clone)]
pub struct ExplorePage {
    pub id: String,
    pub body: ExploreBody,
}

#[derive(Debug, Clone)]
pub struct ExploreBody {
    pub typename: String,
    pub timelines: Vec<TimelineSection>,
}

#[derive(Debug, Clone)]
pub struct TimelineSection {
    pub id: String,
    pub label_text: String,
    pub timeline: TimelineId,
}

#[derive(Debug, Clone)]
pub struct TimelineId {
    pub id: String,
}

/// One timeline of the explore page: its identifier and its label.
#[derive(Debug, Clone)]
pub struct ExploreTimeline {
    pub id: String,
    pub name: String,
}

/// The timelines that an explore response lists, in the response's order:
/// each with the identifier of its timeline and the label of its section.
pub fn explore_timelines(response: &ExploreResponse) -> (timelines: Vec<ExploreTimeline>)
    ensures
        timelines@.len() == response.data.explore_page.body.timelines@.len(),
        forall|i: int|
            0 <= i < timelines@.len() ==> {
                let section = response.data.explore_page.body.timelines@[i];
                &&& (#[trigger] timelines@[i]).id@ == section.timeline.id@
                &&& timelines@[i].name@ == section.label_text@
            },
{
    let sections = &response.data.explore_page.body.timelines;
    let mut timelines: Vec<ExploreTimeline> = Vec::new();
    let mut i: usize = 0;
    while i < sections.len()
        invariant
            i <= sections.len(),
            sections == &response.data.explore_page.body.timelines,
            timelines@.len() == i,
            forall|k: int|
                0 <= k < i ==> {
                    &&& (#[trigger] timelines@[k]).id@ == sections@[k].timeline.id@
                    &&& timelines@[k].name@ == sections@[k].label_text@
                },
        decreases sections.len() - i,
    {
        let section = &sections[i];
        timelines.push(
            ExploreTimeline { id: section.timeline.id.clone(), name: section.label_text.clone() },
        );
        i += 1;
    }
    timelines
}

/// The body of the request for the explore page: an empty cursor as its
/// only variable, and the feature flags.
pub open spec fn explore_request() -> JsonView {
    object2(
        "variables"@,
        object1("cursor"@, JsonView::Text(""@)),
        "features"@,
        flags_object(feature_flags()),
    )
}

/// The body of the request for the explore page.
pub fn explore_request_body() -> (body: Json)
    ensures
        body@ == explore_request(),
{
    Json::object2("variables", Json::object1("cursor", Json::text("")), "features", features())
}

} // verus!
