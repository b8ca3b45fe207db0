//! Request admission and processing stages for an HTTP API server: address
//! filtering, sliding-window rate limiting, request identification,
//! credential checks, response compression, security headers and request
//! logging, composed in one fixed order.

pub mod text;
pub mod http;
pub mod fairing;
pub mod limiting;
pub mod filtering;
pub mod identification;
pub mod compression;
pub mod security;
pub mod config;
pub mod authentication;
pub mod logging;
pub mod pipeline;
pub mod routes;
