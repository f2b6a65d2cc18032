pub mod constant;
pub mod dto;
pub mod enums;
pub mod service;
pub mod controller;
