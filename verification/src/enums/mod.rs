pub mod common_error;
