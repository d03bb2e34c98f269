pub mod state;
pub mod websocket;
pub mod workers;
