use vstd::prelude::*;
use crate::clock::now;
use crate::clock::Timestamp;

verus! {

/// The seconds for which a token is valid.
pub const TOKEN_LIFETIME_SECS: i64 = 3600;

/// What a token says: the user it was issued to, the user's address, when it
/// was issued and when it expires, both in seconds since the epoch.
#[derive(Debug, Clone, PartialEq, Eq)]
pub struct Claims {
    pub sub: u128,
    pub email: String,
    pub iat: usize,
    pub exp: usize,
}

pub struct ClaimsView {
    pub sub: u128,
    pub email: Seq<char>,
    pub iat: usize,
    pub exp: usize,
}

impl View for Claims {
    type V = ClaimsView;

    open spec fn view(&self) -> ClaimsView {
        ClaimsView { sub: self.sub, email: self.email@, iat: self.iat, exp: self.exp }
    }
}

/// The second in which a token expires that is issued on the clock reading
/// `reading`: an hour later, or the last second that can be written where
/// there is no such hour.
pub open spec fn expiry(reading: Timestamp) -> i64 {
    if reading.secs + TOKEN_LIFETIME_SECS > i64::MAX {
        i64::MAX
    } else {
        (reading.secs + TOKEN_LIFETIME_SECS) as i64
    }
}

impl Claims {
    /// The claims of a token for the user `sub`, issued at the reading
    /// `issued` of the clock and valid for an hour from the reading `start`.
    pub open spec fn issued_at(sub: u128, email: Seq<char>, issued: Timestamp, start: Timestamp)
        -> ClaimsView {
        ClaimsView { sub, email, iat: issued.secs as usize, exp: expiry(start) as usize }
    }

    /// The claims of a token for the user `sub`, issued at the reading
    /// `issued` of the clock and valid for an hour from the reading `start`.
    pub fn new(sub: u128, email: &str, issued: Timestamp, start: Timestamp) -> (claims: Self)
        ensures
            claims@ == Self::issued_at(sub, email@, issued, start),
    {
        let expires: i64 = if start.secs > i64::MAX - TOKEN_LIFETIME_SECS {
            i64::MAX
        } else {
            start.secs + TOKEN_LIFETIME_SECS
        };
        Claims {
            sub,
            email: email.to_owned(),
            iat: #[verifier::truncate]
            (issued.secs as usize),
            exp: #[verifier::truncate]
            (expires as usize),
        }
    }

    /// The claims of a token for the user `sub`, issued now and valid for an
    /// hour. The clock is read twice, once for each time.
    pub fn from(sub: u128, email: &str) -> (claims: Self)
        ensures
            exists|issued: Timestamp, start: Timestamp|
                issued.is_clock_reading() && start.is_clock_reading() && claims@
                    == Self::issued_at(sub, email@, issued, start),
    {
        let issued = now();
        let start = now();
        Self::new(sub, email, issued, start)
    }
}

} // verus!
