pub mod browser;
pub mod config;
pub mod error;
pub mod extract;
pub mod fetch;
pub mod html;
pub mod rate_limit;
pub mod search;
pub mod state;
pub mod strings;
pub mod tools;
pub mod urls;
