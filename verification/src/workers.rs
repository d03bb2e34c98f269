pub mod database_worker;
pub mod message_worker;
pub mod router;
pub mod theorems;
