use vstd::prelude::*;

verus! {

/// Prefix under which the foo endpoints are nested
pub const API_FOO_MAIN_PATH: &'static str = "/foo";

/// Path of the foo GET endpoint, relative to `API_FOO_MAIN_PATH`
pub const API_FOO_GET_ALL: &'static str = "/get-all";

/// Path of the foo POST endpoint, relative to `API_FOO_MAIN_PATH`
pub const API_FOO_POST_ALL: &'static str = "/post-all";

/// Path of the health check endpoint
pub const API_HEALTH_CHECK_PATH: &'static str = "/health";

/// Status that the health check reports while the server runs
pub const SERVER_RUNNING_STATUS: &'static str = "UP";

/// Seconds that an idle connection to the third party API is kept in the pool
pub const HTTP_CLIENT_CONNECTION_TIMEOUT: u64 = 30;

} // verus!
