use vstd::prelude::*;
use vstd::string::StrSliceExecFns;
use crate::http::error::HttpError;
use crate::http::error::HttpErrorView;

pub mod group;
pub mod user;

verus! {

/// The token that the value of an `Authorization` header carries: what
/// follows `Bearer ` and a blank, where the value starts so.
pub open spec fn bearer_token_of(value: Seq<char>) -> Option<Seq<char>> {
    if "Bearer "@.is_prefix_of(value) {
        Some(value.skip(7))
    } else {
        None
    }
}

/// Takes the token out of the `Authorization` header of a request.
/// `authorization` is the header's value, or `None` where the request has no
/// such header or its value is no text. A request without a token is
/// unauthorized.
pub fn bearer_token<'a>(authorization: Option<&'a str>) -> (token: Result<&'a str, HttpError>)
    ensures
        match token {
            Ok(text) => authorization matches Some(value) && bearer_token_of(value@) == Some(
                text@,
            ),
            Err(error) => {
                &&& error@ == HttpErrorView::Unauthorized
                &&& authorization matches Some(value) ==> bearer_token_of(value@) is None
            },
        },
{
    let value = match authorization {
        Some(value) => value,
        None => {
            return Err(HttpError::Unauthorized);
        },
    };
    let prefix = "Bearer ";
    proof {
        reveal_strlit("Bearer ");
    }
    let length = value.unicode_len();
    if length < 7 {
        return Err(HttpError::Unauthorized);
    }
    let mut i: usize = 0;
    while i < 7
        invariant
            i <= 7,
            authorization == Some(value),
            7 <= length == value@.len(),
            prefix@ == "Bearer "@,
            prefix@.len() == 7,
            forall|j: int| 0 <= j < i ==> value@[j] == prefix@[j],
        decreases 7 - i,
    {
        if value.get_char(i) != prefix.get_char(i) {
            assert(value@.subrange(0, 7)[i as int] != prefix@[i as int]);
            return Err(HttpError::Unauthorized);
        }
        i += 1;
    }
    assert(prefix@ =~= value@.subrange(0, 7));
    Ok(value.substring_char(7, length))
}

} // verus!
