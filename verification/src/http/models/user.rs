use vstd::prelude::*;
use vstd::std_specs::convert::FromSpecImpl;
use crate::db;

verus! {

/// What a client sends to register a user.
#[derive(Debug, Clone, PartialEq, Eq)]
pub struct UserCreateRequest {
    pub nickname: String,
    pub name: String,
    pub surname: String,
    pub email: String,
    pub password: String,
    pub image: Option<String>,
}

/// What a client sends to log in.
#[derive(Debug, Clone, PartialEq, Eq)]
pub struct LoginRequest {
    pub email: String,
    pub password: String,
}

pub struct LoginRequestView {
    pub email: Seq<char>,
    pub password: Seq<char>,
}

impl View for LoginRequest {
    type V = LoginRequestView;

    open spec fn view(&self) -> LoginRequestView {
        LoginRequestView { email: self.email@, password: self.password@ }
    }
}

/// What a client gets on a successful login: the token to authenticate with.
#[derive(Debug, Clone, PartialEq, Eq)]
pub struct LoginResponse {
    pub auth: String,
}

impl View for LoginResponse {
    type V = Seq<char>;

    open spec fn view(&self) -> Seq<char> {
        self.auth@
    }
}

/// A user as other users may see it.
#[derive(Debug, Clone, PartialEq, Eq)]
pub struct User {
    pub id: u128,
    pub nickname: String,
    pub name: String,
    pub surname: String,
    pub email: String,
}

impl From<db::models::User> for User {
    fn from(value: db::models::User) -> (user: Self) {
        Self {
            id: value.id,
            nickname: value.nickname,
            name: value.name,
            surname: value.surname,
            email: value.email,
        }
    }
}

impl FromSpecImpl<db::models::User> for User {
    open spec fn obeys_from_spec() -> bool {
        true
    }

    open spec fn from_spec(value: db::models::User) -> Self {
        Self {
            id: value.id,
            nickname: value.nickname,
            name: value.name,
            surname: value.surname,
            email: value.email,
        }
    }
}

} // verus!
