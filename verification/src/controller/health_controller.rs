use vstd::prelude::*;
use crate::constant::constants::API_HEALTH_CHECK_PATH;
use crate::constant::constants::SERVER_RUNNING_STATUS;
use crate::controller::routes::route;
use crate::controller::routes::Handler;
use crate::controller::routes::HttpMethod;
use crate::controller::routes::Route;
use crate::dto::health::Health;

verus! {

/// Health controller implementation struct
pub struct HealthController {}

impl HealthController {
    /// The end-points of this controller: the health check
    pub fn routes() -> (routes: Vec<Route>)
        ensures
            routes@.len() == 1,
            routes@[0].method == HttpMethod::Get,
            routes@[0].path@ == API_HEALTH_CHECK_PATH@,
            routes@[0].handler == Handler::HealthCheck,
    {
        let mut routes: Vec<Route> = Vec::new();
        routes.push(route(HttpMethod::Get, API_HEALTH_CHECK_PATH, Handler::HealthCheck));
        routes
    }

    /// What the health check answers: the server is running
    pub fn map_health() -> (health: Health)
        ensures
            health.status@ == SERVER_RUNNING_STATUS@,
    {
        Health { status: String::from_str(SERVER_RUNNING_STATUS) }
    }
}

} // verus!
