use vstd::prelude::*;

verus! {

/// A failure reported by the TLS engine, carried verbatim: the engine's
/// status code, its human-readable description, and an optional cause.
#[derive(Debug)]
pub struct Error {
    code: i32,
    description: String,
    cause: Option<Box<Error>>,
}

impl Error {
    pub closed spec fn spec_code(&self) -> i32 {
        self.code
    }

    pub closed spec fn spec_description(&self) -> Seq<char> {
        self.description@
    }

    pub closed spec fn spec_cause(&self) -> Option<Error> {
        match self.cause {
            Some(c) => Some(*c),
            None => None,
        }
    }

    /// Wraps an engine failure with no underlying cause.
    pub fn new(code: i32, description: String) -> (r: Error)
        ensures
            r.spec_code() == code,
            r.spec_description() == description@,
            r.spec_cause() is None,
    {
        Error { code, description, cause: None }
    }

    /// Wraps an engine failure that was itself caused by `cause`.
    pub fn with_cause(code: i32, description: String, cause: Error) -> (r: Error)
        ensures
            r.spec_code() == code,
            r.spec_description() == description@,
            r.spec_cause() == Some(cause),
    {
        Error { code, description, cause: Some(Box::new(cause)) }
    }

    /// The engine's status code.
    pub fn code(&self) -> (r: i32)
        ensures
            r == self.spec_code(),
    {
        self.code
    }

    /// The engine's description of the failure.
    pub fn description(&self) -> (r: &str)
        ensures
            r@ == self.spec_description(),
    {
        self.description.as_str()
    }

    /// The failure underneath this one, if the engine reported one.
    pub fn cause(&self) -> (r: Option<&Error>)
        ensures
            r == match self.spec_cause() {
                Some(c) => Some(&c),
                None => None::<&Error>,
            },
    {
        match &self.cause {
            Some(c) => Some(&**c),
            None => None,
        }
    }
}

} // verus!
