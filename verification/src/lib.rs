//! Client-side logic of the QuQuer agent gaming platform: identity keys,
//! commit-reveal submissions, session tokens, request paths and audit-log
//! hash chains.

pub mod api;
pub mod audit;
pub mod auth;
pub mod cli;
pub mod config;
pub mod crypto;
pub mod encoding;
pub mod game;
pub mod keys;
pub mod submit;
pub mod text;
pub mod types;
