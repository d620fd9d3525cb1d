use vstd::prelude::*;

verus! {

/// What routing management reports when it refuses a request.
#[derive(Debug, PartialEq, Eq)]
pub enum Error {
    /// The request was refused; the text says why.
    FailedQuery(String),
}

impl View for Error {
    type V = Seq<char>;

    /// The text of the refusal.
    open spec fn view(&self) -> Seq<char> {
        match self {
            Error::FailedQuery(text) => text@,
        }
    }
}

/// An error reads as the text it was made with.
pub proof fn law_error_reads_as_its_text(text: String)
    ensures
        Error::FailedQuery(text)@ == text@,
{
}

} // verus!
