pub mod clock;
pub mod db;
pub mod hashing;
pub mod http;
pub mod ids;
pub mod messages;
pub mod workers;
