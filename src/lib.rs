pub mod config;
pub mod issue;
pub mod request;
pub mod session;
