pub mod foo_controller;
pub mod health_controller;
pub mod routes;
