use vstd::prelude::*;

verus! {

/// Errors that can occur loading a movie.
pub enum Error {
    /// The SWF could not be parsed; the payload describes why.
    Load(String),
    /// The offscreen renderer could not be created; the payload describes why.
    Renderer(String),
}

/// The text that prefixes each kind of error in its message.
pub open spec fn error_prefix(e: &Error) -> Seq<char> {
    match e {
        Error::Load(_) => "failed to load SWF: "@,
        Error::Renderer(_) => "failed to create renderer: "@,
    }
}

/// The detail carried by an error.
pub open spec fn error_detail(e: &Error) -> Seq<char> {
    match e {
        Error::Load(d) => d@,
        Error::Renderer(d) => d@,
    }
}

/// A load error reads "failed to load SWF: " and a renderer error "failed to
/// create renderer: ", each followed by its detail.
pub proof fn lemma_error_messages(detail: String)
    ensures
        error_prefix(&Error::Load(detail)) + error_detail(&Error::Load(detail))
            == "failed to load SWF: "@ + detail@,
        error_prefix(&Error::Renderer(detail)) + error_detail(&Error::Renderer(detail))
            == "failed to create renderer: "@ + detail@,
{
}

impl Error {
    /// The human-readable message of this error: its kind's prefix followed by
    /// the detail.
    pub fn message(&self) -> (s: String)
        ensures
            s@ == error_prefix(self) + error_detail(self),
    {
        match self {
            Error::Load(d) => {
                let mut s = String::from_str("failed to load SWF: ");
                s.append(d.as_str());
                s
            },
            Error::Renderer(d) => {
                let mut s = String::from_str("failed to create renderer: ");
                s.append(d.as_str());
                s
            },
        }
    }
}

} // verus!
