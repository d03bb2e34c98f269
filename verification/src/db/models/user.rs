use vstd::prelude::*;
use crate::hashing;
use crate::http::models::user::UserCreateRequest;
use crate::ids::is_random_id;
use crate::ids::new_id;

verus! {

/// A user as durable storage holds it. `password` is the hash of the user's
/// password, never the password itself.
#[derive(Debug, Clone, PartialEq, Eq)]
pub struct User {
    pub id: u128,
    pub nickname: String,
    pub name: String,
    pub surname: String,
    pub email: String,
    pub password: String,
    pub image: Option<String>,
}

impl User {
    /// The user that `value` registers, under the identifier `id` and with
    /// `password` as the hash of the password.
    pub open spec fn registered(value: UserCreateRequest, id: u128, password: String) -> User {
        User {
            id,
            nickname: value.nickname,
            name: value.name,
            surname: value.surname,
            email: value.email,
            password,
            image: value.image,
        }
    }

    /// The user that `value` registers, under a given identifier and with
    /// `password` as the hash of the password.
    pub fn with_id(value: UserCreateRequest, id: u128, password: String) -> (user: Self)
        ensures
            user == Self::registered(value, id, password),
    {
        Self {
            id,
            nickname: value.nickname,
            name: value.name,
            surname: value.surname,
            email: value.email,
            password,
            image: value.image,
        }
    }

    /// The outcome of registering `value` under the identifier `id`, given
    /// what hashing the password gave: the user with the hash as password, or
    /// the error of the hashing, unchanged.
    pub fn from_hashed(
        value: UserCreateRequest,
        id: u128,
        hashed: Result<String, bcrypt::BcryptError>,
    ) -> (user: Result<Self, bcrypt::BcryptError>)
        ensures
            user == match hashed {
                Ok(password) => Ok::<Self, bcrypt::BcryptError>(
                    Self::registered(value, id, password),
                ),
                Err(error) => Err::<Self, bcrypt::BcryptError>(error),
            },
    {
        match hashed {
            Ok(password) => Ok(Self::with_id(value, id, password)),
            Err(error) => Err(error),
        }
    }

    /// The user that `value` registers, under a fresh identifier and with the
    /// password hashed. Fails where the password cannot be hashed, which the
    /// hashing alone decides; the error is then that of the hashing.
    pub fn try_from(value: UserCreateRequest) -> (user: Result<Self, bcrypt::BcryptError>)
        ensures
            user matches Ok(made) ==> made == Self::registered(value, made.id, made.password)
                && is_random_id(made.id),
    {
        let id = new_id();
        let hashed = hashing::hash(value.password.as_str());
        Self::from_hashed(value, id, hashed)
    }
}

} // verus!
