//! Failures of the engine: unqualified, or described by a message for the participant.
use vstd::prelude::*;

verus! {

#[derive(Debug)]
pub enum Error {
    Default,
    Verbose(String),
}

impl Error {
    /// A failure described by `text`.
    pub fn make_verbose(text: &str) -> (r: Error)
        ensures
            r matches Error::Verbose(m) && m@ == text@,
    {
        Error::Verbose(String::from_str(text))
    }

    /// The failure as the error of a result.
    pub fn wrap<T>(self) -> (r: Result<T, Error>)
        ensures
            r == Err::<T, Error>(self),
    {
        Err(self)
    }

    /// The description, if the failure has one.
    pub fn msg(&self) -> (r: Option<String>)
        ensures
            match self {
                Error::Verbose(m) => r matches Some(x) && x@ == m@,
                Error::Default => r is None,
            },
    {
        match self {
            Error::Verbose(text) => Some(text.clone()),
            Error::Default => None,
        }
    }
}

} // verus!
