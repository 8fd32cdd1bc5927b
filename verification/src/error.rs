//! The error taxonomy and the mapping from HTTP status codes to it.

use vstd::prelude::*;

verus! {

/// Everything that can go wrong while an asset task is carried out.
///
/// Variants that stand for a failure outside this crate (transport, encoding,
/// file system) carry the failure's rendered message.
#[derive(Debug, Clone, PartialEq, Eq)]
pub enum LfaError {
    /// The retrying transport gave up on a request.
    RequestMiddleWareError(String),
    /// A request body could not be encoded.
    SerializationError(String),
    /// A response was not the one that was needed: it had this status and
    /// this text.
    UploadFailed(u16, String),
    /// The file system refused an operation.
    IoError(String),
    /// A request or the reading of its response failed.
    RequestError(String),
    /// Status 400.
    BadRequest(String),
    /// Status 401.
    Unauthorized(String),
    /// Status 404.
    FileNotExists(String),
    /// Status 409.
    FileExists(String),
    /// Status 500.
    InternalServerError(String),
    /// Any other status outside the success range.
    UnexpectedStatusCode(u16, String),
}

/// The mathematical value of an [`LfaError`].
pub enum LfaErrorView {
    RequestMiddleWareError(Seq<char>),
    SerializationError(Seq<char>),
    UploadFailed(u16, Seq<char>),
    IoError(Seq<char>),
    RequestError(Seq<char>),
    BadRequest(Seq<char>),
    Unauthorized(Seq<char>),
    FileNotExists(Seq<char>),
    FileExists(Seq<char>),
    InternalServerError(Seq<char>),
    UnexpectedStatusCode(u16, Seq<char>),
}

impl View for LfaError {
    type V = LfaErrorView;

    open spec fn view(&self) -> LfaErrorView {
        match self {
            LfaError::RequestMiddleWareError(m) => LfaErrorView::RequestMiddleWareError(m@),
            LfaError::SerializationError(m) => LfaErrorView::SerializationError(m@),
            LfaError::UploadFailed(s, m) => LfaErrorView::UploadFailed(*s, m@),
            LfaError::IoError(m) => LfaErrorView::IoError(m@),
            LfaError::RequestError(m) => LfaErrorView::RequestError(m@),
            LfaError::BadRequest(m) => LfaErrorView::BadRequest(m@),
            LfaError::Unauthorized(m) => LfaErrorView::Unauthorized(m@),
            LfaError::FileNotExists(m) => LfaErrorView::FileNotExists(m@),
            LfaError::FileExists(m) => LfaErrorView::FileExists(m@),
            LfaError::InternalServerError(m) => LfaErrorView::InternalServerError(m@),
            LfaError::UnexpectedStatusCode(s, m) => LfaErrorView::UnexpectedStatusCode(*s, m@),
        }
    }
}

/// The error that a response with the given status and body text stands for.
pub open spec fn error_of_status(status: u16, text: Seq<char>) -> LfaErrorView {
    if status == 400 {
        LfaErrorView::BadRequest(text)
    } else if status == 401 {
        LfaErrorView::Unauthorized(text)
    } else if status == 404 {
        LfaErrorView::FileNotExists(text)
    } else if status == 409 {
        LfaErrorView::FileExists(text)
    } else if status == 500 {
        LfaErrorView::InternalServerError(text)
    } else {
        LfaErrorView::UnexpectedStatusCode(status, text)
    }
}

impl LfaErrorView {
    /// The address has no such file: status 404.
    pub open spec fn not_found(self) -> bool {
        self is FileNotExists
    }

    /// The destination holds the file already: status 409.
    pub open spec fn conflict(self) -> bool {
        self is FileExists
    }
}

/// The status tells the error, and the error tells the status: each of the
/// five statuses with an error of its own gives that error and no other
/// status does, every other status gives the error that carries the status,
/// and the text is kept in every case.
pub proof fn lemma_status_tells_the_error(status: u16, text: Seq<char>)
    ensures
        error_of_status(status, text) == LfaErrorView::BadRequest(text) <==> status == 400,
        error_of_status(status, text) == LfaErrorView::Unauthorized(text) <==> status == 401,
        error_of_status(status, text) == LfaErrorView::FileNotExists(text) <==> status == 404,
        error_of_status(status, text) == LfaErrorView::FileExists(text) <==> status == 409,
        error_of_status(status, text) == LfaErrorView::InternalServerError(text) <==> status
            == 500,
        error_of_status(status, text) == LfaErrorView::UnexpectedStatusCode(status, text) <==> !(
        status == 400 || status == 401 || status == 404 || status == 409 || status == 500),
        error_of_status(status, text).not_found() <==> status == 404,
        error_of_status(status, text).conflict() <==> status == 409,
{
}

impl LfaError {
    /// Whether the error says that the address has no such file.
    pub fn is_not_found(&self) -> (not_found: bool)
        ensures
            not_found == self@.not_found(),
    {
        match self {
            LfaError::FileNotExists(_) => true,
            _ => false,
        }
    }

    /// Whether the error says that the destination holds the file already.
    pub fn is_conflict(&self) -> (conflict: bool)
        ensures
            conflict == self@.conflict(),
    {
        match self {
            LfaError::FileExists(_) => true,
            _ => false,
        }
    }

    /// Classifies a response by its exact status code, keeping the body text
    /// for diagnostics.
    pub fn from_response(status: u16, text: String) -> (e: LfaError)
        ensures
            e@ == error_of_status(status, text@),
    {
        match status {
            400 => LfaError::BadRequest(text),
            401 => LfaError::Unauthorized(text),
            404 => LfaError::FileNotExists(text),
            409 => LfaError::FileExists(text),
            500 => LfaError::InternalServerError(text),
            _ => LfaError::UnexpectedStatusCode(status, text),
        }
    }
}

/// The decimal digit of a number below ten.
pub open spec fn digit(d: nat) -> char {
    if d == 0 {
        '0'
    } else if d == 1 {
        '1'
    } else if d == 2 {
        '2'
    } else if d == 3 {
        '3'
    } else if d == 4 {
        '4'
    } else if d == 5 {
        '5'
    } else if d == 6 {
        '6'
    } else if d == 7 {
        '7'
    } else if d == 8 {
        '8'
    } else {
        '9'
    }
}

/// A number written in decimal, without leading zeros.
pub open spec fn decimal(n: nat) -> Seq<char>
    decreases n,
{
    if n < 10 {
        seq![digit(n)]
    } else {
        decimal(n / 10).push(digit(n % 10))
    }
}

/// The message of an error: what went wrong, then the detail.
pub open spec fn message_of(error: LfaErrorView) -> Seq<char> {
    match error {
        LfaErrorView::RequestMiddleWareError(m) => "Request failed: "@ + m,
        LfaErrorView::SerializationError(m) => "Serialization failed: "@ + m,
        LfaErrorView::UploadFailed(status, m) => "Upload failed with status "@ + decimal(
            status as nat,
        ) + ": "@ + m,
        LfaErrorView::IoError(m) => "Io error: "@ + m,
        LfaErrorView::RequestError(m) => "Request failed: "@ + m,
        LfaErrorView::BadRequest(m) => "Bad request: "@ + m,
        LfaErrorView::Unauthorized(m) => "Unauthorized: "@ + m,
        LfaErrorView::FileNotExists(m) => "File not exists: "@ + m,
        LfaErrorView::FileExists(m) => "File already exists: "@ + m,
        LfaErrorView::InternalServerError(m) => "Internal server error: "@ + m,
        LfaErrorView::UnexpectedStatusCode(status, _) => "Unexpected status code: "@ + decimal(
            status as nat,
        ),
    }
}

/// The digit of a number below ten, as text.
fn digit_text(d: u16) -> (text: &'static str)
    requires
        d < 10,
    ensures
        text@ == seq![digit(d as nat)],
{
    proof {
        reveal_strlit("0");
        reveal_strlit("1");
        reveal_strlit("2");
        reveal_strlit("3");
        reveal_strlit("4");
        reveal_strlit("5");
        reveal_strlit("6");
        reveal_strlit("7");
        reveal_strlit("8");
        reveal_strlit("9");
    }
    match d {
        0 => "0",
        1 => "1",
        2 => "2",
        3 => "3",
        4 => "4",
        5 => "5",
        6 => "6",
        7 => "7",
        8 => "8",
        _ => "9",
    }
}

/// Writes a status code in decimal.
pub fn status_text(status: u16) -> (text: String)
    ensures
        text@ == decimal(status as nat),
    decreases status,
{
    if status < 10 {
        String::from_str(digit_text(status))
    } else {
        let mut text = status_text(status / 10);
        text.append(digit_text(status % 10));
        text
    }
}

/// `label` followed by `detail`.
fn labelled(label: &str, detail: &str) -> (text: String)
    ensures
        text@ == label@ + detail@,
{
    let mut text = String::from_str(label);
    text.append(detail);
    text
}

impl LfaError {
    /// The message of the error.
    pub fn to_string(&self) -> (message: String)
        ensures
            message@ == message_of(self@),
    {
        match self {
            LfaError::RequestMiddleWareError(m) => labelled("Request failed: ", m.as_str()),
            LfaError::SerializationError(m) => labelled("Serialization failed: ", m.as_str()),
            LfaError::UploadFailed(status, m) => {
                let mut text = labelled(
                    "Upload failed with status ",
                    status_text(*status).as_str(),
                );
                text.append(": ");
                text.append(m.as_str());
                text
            },
            LfaError::IoError(m) => labelled("Io error: ", m.as_str()),
            LfaError::RequestError(m) => labelled("Request failed: ", m.as_str()),
            LfaError::BadRequest(m) => labelled("Bad request: ", m.as_str()),
            LfaError::Unauthorized(m) => labelled("Unauthorized: ", m.as_str()),
            LfaError::FileNotExists(m) => labelled("File not exists: ", m.as_str()),
            LfaError::FileExists(m) => labelled("File already exists: ", m.as_str()),
            LfaError::InternalServerError(m) => labelled("Internal server error: ", m.as_str()),
            LfaError::UnexpectedStatusCode(status, _) => labelled(
                "Unexpected status code: ",
                status_text(*status).as_str(),
            ),
        }
    }
}

} // verus!
