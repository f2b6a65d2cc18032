pub mod foo_get_request;
pub mod foo_post_request;
pub mod health;
