use vstd::prelude::*;

verus! {

/// The envelope of every answer: a status, a message and, where there is
/// one, the data.
pub struct ApiResponse<T> {
    status_code: u16,
    message: String,
    data: Option<T>,
}

impl<T> ApiResponse<T> {
    /// The status that the envelope was made with.
    pub closed spec fn status(&self) -> u16 {
        self.status_code
    }

    /// The message of the envelope.
    pub closed spec fn text(&self) -> Seq<char> {
        self.message@
    }

    /// The data of the envelope.
    pub closed spec fn payload(&self) -> Option<T> {
        self.data
    }

    /// Whether a number is a status that HTTP can carry.
    pub open spec fn is_http_status(code: u16) -> bool {
        100 <= code <= 999
    }

    /// An envelope with the given status, message and data.
    pub fn new(status: u16, message: String, data: Option<T>) -> (r: Self)
        ensures
            r.status() == status,
            r.text() == message@,
            r.payload() == data,
    {
        Self { status_code: status, message, data }
    }

    /// Success with data: status 200.
    pub fn ok(data: T) -> (r: Self)
        ensures
            r.status() == 200,
            r.text() == "success"@,
            r.payload() == Some(data),
    {
        Self::new(200, "success".to_owned(), Some(data))
    }

    /// A record was created: status 201.
    pub fn created(data: T) -> (r: Self)
        ensures
            r.status() == 201,
            r.text() == "created"@,
            r.payload() == Some(data),
    {
        Self::new(201, "created".to_owned(), Some(data))
    }

    pub fn status_code(&self) -> (code: u16)
        ensures
            code == self.status(),
    {
        self.status_code
    }

    pub fn message(&self) -> (text: &String)
        ensures
            text@ == self.text(),
    {
        &self.message
    }

    pub fn data(&self) -> (data: &Option<T>)
        ensures
            *data == self.payload(),
    {
        &self.data
    }

    /// The three parts of the envelope.
    pub fn into_parts(self) -> (parts: (u16, String, Option<T>))
        ensures
            parts.0 == self.status(),
            parts.1@ == self.text(),
            parts.2 == self.payload(),
    {
        (self.status_code, self.message, self.data)
    }

    /// The status to send: the envelope's own where HTTP can carry it, and
    /// 500 where it cannot.
    pub fn http_status(&self) -> (code: u16)
        ensures
            Self::is_http_status(self.status()) ==> code == self.status(),
            !Self::is_http_status(self.status()) ==> code == 500,
    {
        if 100 <= self.status_code && self.status_code <= 999 {
            self.status_code
        } else {
            500
        }
    }
}

impl ApiResponse<()> {
    /// Success without data: status 200.
    pub fn ok_empty() -> (r: Self)
        ensures
            r.status() == 200,
            r.text() == "success"@,
            r.payload() == None::<()>,
    {
        Self::new(200, "success".to_owned(), None)
    }
}

} // verus!
