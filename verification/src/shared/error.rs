use vstd::prelude::*;
use vstd::string::to_string_from_display_ensures;

verus! {

/// A text that can become the message of an error: a string slice or an
/// owned string.
pub trait Message: Sized {
    /// The text itself.
    spec fn text(&self) -> Seq<char>;

    /// The text as an owned string.
    fn into_text(self) -> (owned: String)
        ensures
            owned@ == self.text(),
    ;
}

impl Message for String {
    open spec fn text(&self) -> Seq<char> {
        self@
    }

    fn into_text(self) -> (owned: String) {
        self
    }
}

impl<'a> Message for &'a str {
    open spec fn text(&self) -> Seq<char> {
        self@
    }

    fn into_text(self) -> (owned: String) {
        self.to_owned()
    }
}

/// The ways a request can fail, as the caller is to be told.
#[derive(Debug)]
pub enum AppError {
    /// The request is malformed.
    BadRequest(String),
    /// No record matches.
    NotFound(String),
    Unauthorized,
    Forbidden,
    /// The request is at odds with what is stored.
    Conflict(String),
    /// The store, the hashing or anything else failed. The text is for the
    /// log and never for the caller.
    Internal(String),
}

impl AppError {
    /// The HTTP status that stands for the error.
    pub open spec fn status(&self) -> u16 {
        match self {
            AppError::BadRequest(_) => 400,
            AppError::NotFound(_) => 404,
            AppError::Unauthorized => 401,
            AppError::Forbidden => 403,
            AppError::Conflict(_) => 409,
            AppError::Internal(_) => 500,
        }
    }

    /// The message that the caller is given. An internal error shows none
    /// of its detail.
    pub open spec fn public_message(&self) -> Seq<char> {
        match self {
            AppError::BadRequest(m) => m@,
            AppError::NotFound(m) => m@,
            AppError::Unauthorized => "unauthorized"@,
            AppError::Forbidden => "forbidden"@,
            AppError::Conflict(m) => m@,
            AppError::Internal(_) => "internal server error"@,
        }
    }

    pub fn bad_request<T: Message>(msg: T) -> (e: Self)
        ensures
            e matches AppError::BadRequest(m) && m@ == msg.text(),
    {
        AppError::BadRequest(msg.into_text())
    }

    pub fn not_found<T: Message>(msg: T) -> (e: Self)
        ensures
            e matches AppError::NotFound(m) && m@ == msg.text(),
    {
        AppError::NotFound(msg.into_text())
    }

    pub fn conflict<T: Message>(msg: T) -> (e: Self)
        ensures
            e matches AppError::Conflict(m) && m@ == msg.text(),
    {
        AppError::Conflict(msg.into_text())
    }

    pub fn internal_server_error<T: std::fmt::Display>(msg: T) -> (e: Self)
        ensures
            e matches AppError::Internal(m) && to_string_from_display_ensures::<T>(&msg, m),
    {
        AppError::Internal(msg.to_string())
    }

    /// The HTTP status to answer with.
    pub fn status_code(&self) -> (code: u16)
        ensures
            code == self.status(),
    {
        match self {
            AppError::BadRequest(_) => 400,
            AppError::NotFound(_) => 404,
            AppError::Unauthorized => 401,
            AppError::Forbidden => 403,
            AppError::Conflict(_) => 409,
            AppError::Internal(_) => 500,
        }
    }

    /// The message to answer with.
    pub fn message(&self) -> (text: String)
        ensures
            text@ == self.public_message(),
    {
        match self {
            AppError::BadRequest(m) => m.clone(),
            AppError::NotFound(m) => m.clone(),
            AppError::Unauthorized => "unauthorized".to_owned(),
            AppError::Forbidden => "forbidden".to_owned(),
            AppError::Conflict(m) => m.clone(),
            AppError::Internal(_) => "internal server error".to_owned(),
        }
    }
}

} // verus!
