//! Session, workspace, authentication and chat bookkeeping for a web front end
//! that drives a language-model command line tool through a helper process.

pub mod text;
pub mod ids;
pub mod json;
pub mod paths;
pub mod config;
pub mod auth;
pub mod chat;
pub mod workspace;
pub mod bridge;
pub mod db;
pub mod api;
