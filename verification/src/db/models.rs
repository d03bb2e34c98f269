pub mod chat_message;
pub mod group;
pub mod user;

pub use chat_message::DirectChatMessage;
pub use group::Group;
pub use user::User;
