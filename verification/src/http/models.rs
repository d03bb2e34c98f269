pub mod group;
pub mod user;

pub use group::ApproveJoin;
pub use group::CreateGroupRequest;
pub use group::Group;
pub use user::LoginRequest;
pub use user::LoginResponse;
pub use user::User;
pub use user::UserCreateRequest;
