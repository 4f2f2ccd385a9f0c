//! Core of a newsletter backend: claims-based authentication, the request
//! gate that enforces it, and the decision logic of the account, user and
//! subscription handlers, each with a verified contract.

pub mod account;
pub mod api_response;
pub mod article;
pub mod bearer;
pub mod claims;
pub mod config;
pub mod errors;
pub mod jwt;
pub mod main_error;
pub mod middleware;
pub mod numbers;
pub mod subscription;
pub mod template;
pub mod user;
