use vstd::prelude::*;
use crate::db;
use crate::hashing;
use crate::hashing::bcrypt_verdict;
use crate::http::error::HttpError;
use crate::http::error::HttpErrorView;
use crate::http::models::LoginRequest;

verus! {

/// Decides a login, given the user that storage holds under the address of
/// the request and what the check of the password against the user's hash
/// gave: the verdict, or the text of the error where the check failed.
///
/// The user must exist and the password must be the user's; the user comes
/// back where both hold.
pub fn check_login(found: Option<db::models::User>, verdict: Result<bool, String>) -> (checked:
    Result<db::models::User, HttpError>)
    ensures
        match found {
            None => checked matches Err(error) && error@ == HttpErrorView::BadRequest(
                "User not found"@,
            ),
            Some(user) => match verdict {
                Ok(true) => checked == Ok::<db::models::User, HttpError>(user),
                Ok(false) => checked matches Err(error) && error@ == HttpErrorView::BadRequest(
                    "Unauthorized"@,
                ),
                Err(text) => checked == Err::<db::models::User, HttpError>(
                    HttpError::BadRequest(text),
                ),
            },
        },
{
    match found {
        Some(user) => {
            match verdict {
                Ok(true) => Ok(user),
                Ok(false) => Err(HttpError::BadRequest("Unauthorized".to_owned())),
                Err(text) => Err(HttpError::from_hashing(text)),
            }
        },
        None => Err(HttpError::BadRequest("User not found".to_owned())),
    }
}

/// Decides the login `login_request`, given the user that storage holds under
/// its address: the password of the request is checked against the hash that
/// the user has.
pub fn authenticate(login_request: &LoginRequest, found: Option<db::models::User>) -> (checked:
    Result<db::models::User, HttpError>)
    ensures
        match found {
            None => checked matches Err(error) && error@ == HttpErrorView::BadRequest(
                "User not found"@,
            ),
            Some(user) => match bcrypt_verdict(login_request.password@, user.password@) {
                Some(true) => checked == Ok::<db::models::User, HttpError>(user),
                Some(false) => checked matches Err(error) && error@ == HttpErrorView::BadRequest(
                    "Unauthorized"@,
                ),
                None => checked matches Err(error) && error is BadRequest,
            },
        },
{
    let verdict = match &found {
        Some(user) => {
            match hashing::verify(login_request.password.as_str(), user.password.as_str()) {
                Ok(same) => Ok(same),
                Err(error) => Err(hashing::error_text(&error)),
            }
        },
        None => Ok(false),
    };
    check_login(found, verdict)
}

} // verus!
