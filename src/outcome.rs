use vstd::prelude::*;

verus! {

/// Semantic status of a save, mapped to 200, 409, 400 and 500 by the HTTP layer.
#[derive(Clone, Copy, Debug, PartialEq, Eq, Structural)]
pub enum StatusCode {
    Success,
    Conflict,
    BadRequest,
    InternalError,
}

impl StatusCode {
    /// The HTTP status code that stands for this status.
    pub fn http_code(&self) -> (r: u16)
        ensures
            r == http_code_of(*self),
    {
        match self {
            StatusCode::Success => 200,
            StatusCode::Conflict => 409,
            StatusCode::BadRequest => 400,
            StatusCode::InternalError => 500,
        }
    }
}

pub open spec fn http_code_of(s: StatusCode) -> u16 {
    match s {
        StatusCode::Success => 200,
        StatusCode::Conflict => 409,
        StatusCode::BadRequest => 400,
        StatusCode::InternalError => 500,
    }
}

/// What one save (or one batch) reports: a status and a plain-text message.
#[derive(Clone, Debug, PartialEq, Eq)]
pub struct SaveOutcome {
    pub status: StatusCode,
    pub message: String,
}

impl View for SaveOutcome {
    type V = (StatusCode, Seq<char>);

    open spec fn view(&self) -> (StatusCode, Seq<char>) {
        (self.status, self.message@)
    }
}

pub open spec fn success_message() -> Seq<char> {
    "successfully"@
}

pub open spec fn conflict_message(name: Seq<char>) -> Seq<char> {
    name + ": file already exists"@
}

pub open spec fn wrong_filename_message(name: Seq<char>) -> Seq<char> {
    name + ": Wrong filename"@
}

pub open spec fn preview_error_message(name: Seq<char>, reason: Seq<char>) -> Seq<char> {
    name + ": Couldn't save the preview. "@ + reason
}

/// `name` followed by `suffix`.
fn suffixed(name: &str, suffix: &str) -> (r: String)
    ensures
        r@ == name@ + suffix@,
{
    String::from_str(name).concat(suffix)
}

impl SaveOutcome {
    /// The outcome of a save that went through: `(Ok, "successfully")`.
    pub fn success() -> (r: SaveOutcome)
        ensures
            r@ == (StatusCode::Success, success_message()),
    {
        SaveOutcome { status: StatusCode::Success, message: String::from_str("successfully") }
    }

    /// `(Conflict, "<name>: file already exists")`.
    pub fn conflict(name: &str) -> (r: SaveOutcome)
        ensures
            r@ == (StatusCode::Conflict, conflict_message(name@)),
    {
        SaveOutcome { status: StatusCode::Conflict, message: suffixed(name, ": file already exists") }
    }

    /// `(BadRequest, "<name>: Wrong filename")`.
    pub fn wrong_filename(name: &str) -> (r: SaveOutcome)
        ensures
            r@ == (StatusCode::BadRequest, wrong_filename_message(name@)),
    {
        SaveOutcome { status: StatusCode::BadRequest, message: suffixed(name, ": Wrong filename") }
    }

    /// `(InternalError, text)`, with the error text as it came.
    pub fn internal(text: String) -> (r: SaveOutcome)
        ensures
            r@ == (StatusCode::InternalError, text@),
    {
        SaveOutcome { status: StatusCode::InternalError, message: text }
    }
}

/// The outcome of a failed preview:
/// `(InternalError, "<filename>: Couldn't save the preview. <err_str>")`.
pub fn save_preview_err_case(filename: String, err_str: String) -> (r: SaveOutcome)
    ensures
        r@ == (StatusCode::InternalError, preview_error_message(filename@, err_str@)),
{
    let msg = suffixed(filename.as_str(), ": Couldn't save the preview. ").concat(err_str.as_str());
    SaveOutcome { status: StatusCode::InternalError, message: msg }
}

} // verus!
