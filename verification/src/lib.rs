//! A gateway that turns a small HTTP surface into commands for a key-value
//! backend and turns the backend's answers back into HTTP responses.

pub mod command;
pub mod error;
pub mod gateway;
pub mod http;
pub mod mapper;
pub mod model;
pub mod routes;
pub mod text;
pub mod translator;
pub mod urlcode;
