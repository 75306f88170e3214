//! The addresses of the provider's endpoints.

use vstd::prelude::*;

verus! {

/// Where a guest token is asked for, by `POST`.
pub const GUEST_ACTIVATE_URL: &'static str = "https://api.x.com/1.1/guest/activate.json";

/// Where the login flow is opened, by `POST`.
pub const FLOW_INIT_URL: &'static str =
    "https://api.x.com/1.1/onboarding/task.json?flow_name=login";

/// Where a step of the login flow is sent, by `POST`.
pub const FLOW_TASK_URL: &'static str = "https://api.x.com/1.1/onboarding/task.json";

/// Where the liveness of a login is checked, by `GET`.
pub const VERIFY_CREDENTIALS_URL: &'static str =
    "https://api.x.com/1.1/account/verify_credentials.json";

/// Where the explore page is asked for, by `GET`.
pub const EXPLORE_PAGE_URL: &'static str =
    "https://twitter.com/i/api/graphql/_XV-G8GPq40yR0j1h86YZg/ExplorePage";

/// Where the trends of a timeline are asked for, by `GET`.
pub const GENERIC_TIMELINE_URL: &'static str =
    "https://twitter.com/i/api/graphql/-R9ACaB96xqEnX2BJ_RbFA/GenericTimelineById";

} // verus!
