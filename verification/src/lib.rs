//! Verified core of the tripchive authentication service: error answers,
//! configuration loading, signed CSRF cookies, OAuth provider plumbing and
//! the decisions taken by the sign-in routes.

pub mod config;
pub mod crypto;
pub mod csrf;
pub mod encoding;
pub mod errors;
pub mod jwt;
pub mod models;
pub mod oauth;
pub mod routes;
pub mod text;
