pub mod foo_service;
