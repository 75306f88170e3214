//! The feature flags that the timeline requests send along.

use crate::json::{field_views, Json, JsonView};
use vstd::prelude::*;

verus! {

/// The feature flags of a timeline request, each with its setting.
pub open spec fn feature_flags() -> Seq<(Seq<char>, bool)> {
    seq![
        ("profile_label_improvements_pcf_label_in_post_enabled"@, true),
        ("rweb_tipjar_consumption_enabled"@, true),
        ("responsive_web_graphql_exclude_directive_enabled"@, true),
        ("verified_phone_label_enabled"@, false),
        ("creator_subscriptions_tweet_preview_api_enabled"@, true),
        ("responsive_web_graphql_timeline_navigation_enabled"@, true),
        ("responsive_web_graphql_skip_user_profile_image_extensions_enabled"@, false),
        ("premium_content_api_read_enabled"@, false),
        ("communities_web_enable_tweet_community_results_fetch"@, true),
        ("c9s_tweet_anatomy_moderator_badge_enabled"@, true),
        ("responsive_web_grok_analyze_button_fetch_trends_enabled"@, false),
        ("responsive_web_grok_analyze_post_followups_enabled"@, true),
        ("responsive_web_jetfuel_frame"@, false),
        ("responsive_web_grok_share_attachment_enabled"@, true),
        ("articles_preview_enabled"@, true),
        ("responsive_web_edit_tweet_api_enabled"@, true),
        ("graphql_is_translatable_rweb_tweet_is_translatable_enabled"@, true),
        ("view_counts_everywhere_api_enabled"@, true),
        ("longform_notetweets_consumption_enabled"@, true),
        ("responsive_web_twitter_article_tweet_consumption_enabled"@, true),
        ("tweet_awards_web_tipping_enabled"@, false),
        ("creator_subscriptions_quote_tweet_preview_enabled"@, false),
        ("freedom_of_speech_not_reach_fetch_enabled"@, true),
        ("standardized_nudges_misinfo"@, true),
        ("tweet_with_visibility_results_prefer_gql_limited_actions_policy_enabled"@, true),
        ("rweb_video_timestamps_enabled"@, true),
        ("longform_notetweets_rich_text_read_enabled"@, true),
        ("longform_notetweets_inline_media_enabled"@, true),
        ("responsive_web_grok_image_annotation_enabled"@, true),
        ("responsive_web_enhance_cards_enabled"@, false),
    ]
}

/// An object with one boolean field for each flag, in order.
pub open spec fn flags_object(flags: Seq<(Seq<char>, bool)>) -> JsonView {
    JsonView::Object(Seq::new(flags.len(), |i: int| (flags[i].0, JsonView::Bool(flags[i].1))))
}

fn flag(name: &str, on: bool) -> (field: (String, Json))
    ensures
        field.0@ == name@,
        field.1@ == JsonView::Bool(on),
{
    (name.to_owned(), Json::Bool(on))
}

/// The feature flags of a timeline request, as the object that the request
/// carries under `features`.
pub fn features() -> (json: Json)
    ensures
        json@ == flags_object(feature_flags()),
{
    let fields: Vec<(String, Json)> = vec![
        flag("profile_label_improvements_pcf_label_in_post_enabled", true),
        flag("rweb_tipjar_consumption_enabled", true),
        flag("responsive_web_graphql_exclude_directive_enabled", true),
        flag("verified_phone_label_enabled", false),
        flag("creator_subscriptions_tweet_preview_api_enabled", true),
        flag("responsive_web_graphql_timeline_navigation_enabled", true),
        flag("responsive_web_graphql_skip_user_profile_image_extensions_enabled", false),
        flag("premium_content_api_read_enabled", false),
        flag("communities_web_enable_tweet_community_results_fetch", true),
        flag("c9s_tweet_anatomy_moderator_badge_enabled", true),
        flag("responsive_web_grok_analyze_button_fetch_trends_enabled", false),
        flag("responsive_web_grok_analyze_post_followups_enabled", true),
        flag("responsive_web_jetfuel_frame", false),
        flag("responsive_web_grok_share_attachment_enabled", true),
        flag("articles_preview_enabled", true),
        flag("responsive_web_edit_tweet_api_enabled", true),
        flag("graphql_is_translatable_rweb_tweet_is_translatable_enabled", true),
        flag("view_counts_everywhere_api_enabled", true),
        flag("longform_notetweets_consumption_enabled", true),
        flag("responsive_web_twitter_article_tweet_consumption_enabled", true),
        flag("tweet_awards_web_tipping_enabled", false),
        flag("creator_subscriptions_quote_tweet_preview_enabled", false),
        flag("freedom_of_speech_not_reach_fetch_enabled", true),
        flag("standardized_nudges_misinfo", true),
        flag("tweet_with_visibility_results_prefer_gql_limited_actions_policy_enabled", true),
        flag("rweb_video_timestamps_enabled", true),
        flag("longform_notetweets_rich_text_read_enabled", true),
        flag("longform_notetweets_inline_media_enabled", true),
        flag("responsive_web_grok_image_annotation_enabled", true),
        flag("responsive_web_enhance_cards_enabled", false),
    ];
    assert(field_views(fields@) =~= flags_object(feature_flags())->Object_0);
    Json::Object(fields)
}

} // verus!
