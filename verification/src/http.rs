pub mod error;
pub mod handlers;
pub mod jwt;
pub mod models;
