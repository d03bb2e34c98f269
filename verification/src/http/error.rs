use vstd::prelude::*;
use vstd::string::StringExecFns;

verus! {

/// What a request handler answers when it cannot serve a request.
#[derive(Debug, Clone, PartialEq, Eq)]
pub enum HttpError {
    BadRequest(String),
    NotFound,
    ServerError(String),
    Unauthorized,
}

pub enum HttpErrorView {
    BadRequest(Seq<char>),
    NotFound,
    ServerError(Seq<char>),
    Unauthorized,
}

impl View for HttpError {
    type V = HttpErrorView;

    open spec fn view(&self) -> HttpErrorView {
        match self {
            HttpError::BadRequest(message) => HttpErrorView::BadRequest(message@),
            HttpError::NotFound => HttpErrorView::NotFound,
            HttpError::ServerError(message) => HttpErrorView::ServerError(message@),
            HttpError::Unauthorized => HttpErrorView::Unauthorized,
        }
    }
}

impl HttpErrorView {
    /// The status code under which the error is answered.
    pub open spec fn status_code(self) -> u16 {
        match self {
            HttpErrorView::ServerError(_) => 500,
            HttpErrorView::BadRequest(_) => 400,
            HttpErrorView::NotFound => 404,
            HttpErrorView::Unauthorized => 401,
        }
    }

    /// The text of the answer's body.
    pub open spec fn text(self) -> Seq<char> {
        match self {
            HttpErrorView::BadRequest(message) => "Bad Request: "@ + message,
            HttpErrorView::Unauthorized => "Unauthorized"@,
            HttpErrorView::NotFound => "Not Found"@,
            HttpErrorView::ServerError(message) => "Internal Server Error: "@ + message,
        }
    }
}

impl HttpError {
    /// The status code under which the error is answered.
    pub fn status_code(&self) -> (code: u16)
        ensures
            code == self@.status_code(),
    {
        match self {
            HttpError::ServerError(_) => 500,
            HttpError::BadRequest(_) => 400,
            HttpError::NotFound => 404,
            HttpError::Unauthorized => 401,
        }
    }

    /// The error for a request whose fields are not valid; `text` says which.
    pub fn from_validation(text: String) -> (error: Self)
        ensures
            error == HttpError::BadRequest(text),
    {
        HttpError::BadRequest(text)
    }

    /// The error for a token that cannot be made or read; `text` says why.
    pub fn from_token(text: String) -> (error: Self)
        ensures
            error == HttpError::BadRequest(text),
    {
        HttpError::BadRequest(text)
    }

    /// The error for an answer that cannot be written as text.
    pub fn from_serialization() -> (error: Self)
        ensures
            error@ == HttpErrorView::ServerError("Serialization error"@),
    {
        HttpError::ServerError("Serialization error".to_owned())
    }

    /// The error for a connection to storage that cannot be had; `text` says
    /// why.
    pub fn from_pool(text: String) -> (error: Self)
        ensures
            error == HttpError::ServerError(text),
    {
        HttpError::ServerError(text)
    }

    /// The error for a password that cannot be hashed or checked; `text` says
    /// why.
    pub fn from_hashing(text: String) -> (error: Self)
        ensures
            error == HttpError::BadRequest(text),
    {
        HttpError::BadRequest(text)
    }

    /// The error for a statement that storage refused; `text` says why. Where
    /// it was refused because a value that must be unique is there already,
    /// the request is at fault; else the server is.
    pub fn from_storage(unique_violation: bool, text: String) -> (error: Self)
        ensures
            error == if unique_violation {
                HttpError::BadRequest(text)
            } else {
                HttpError::ServerError(text)
            },
    {
        if unique_violation {
            HttpError::BadRequest(text)
        } else {
            HttpError::ServerError(text)
        }
    }

    /// The text of the answer's body.
    pub fn to_string(&self) -> (text: String)
        ensures
            text@ == self@.text(),
    {
        match self {
            HttpError::BadRequest(message) => "Bad Request: ".to_owned().concat(message.as_str()),
            HttpError::Unauthorized => "Unauthorized".to_owned(),
            HttpError::NotFound => "Not Found".to_owned(),
            HttpError::ServerError(message) => "Internal Server Error: ".to_owned().concat(
                message.as_str(),
            ),
        }
    }
}

} // verus!
