use vstd::prelude::*;
use vstd::string::StringExecFns;

verus! {

/// An error with a message. Its view is the message.
#[derive(Debug)]
pub struct Error {
    msg: String,
}

impl View for Error {
    type V = Seq<char>;

    closed spec fn view(&self) -> Seq<char> {
        self.msg@
    }
}

impl Error {
    pub fn new(msg: String) -> (error: Error)
        ensures
            error@ == msg@,
    {
        Error { msg }
    }

    /// The message.
    pub fn message(&self) -> (msg: &str)
        ensures
            msg@ == self@,
    {
        self.msg.as_str()
    }
}

/// The message of an error that is given a context: the context, a colon
/// and a blank, then what the error said.
pub open spec fn in_context(context: Seq<char>, description: Seq<char>) -> Seq<char> {
    context + ": "@ + description
}

/// Says in what context an error came up.
pub trait ResultContext<T, E>: Sized {
    /// The value, or else what the error says.
    spec fn described(self) -> Result<T, Seq<char>>;

    /// Leaves a value as it is and puts `s` in front of what an error says.
    fn context(self, s: String) -> (r: Result<T, Error>)
        ensures
            match self.described() {
                Ok(value) => r == Ok::<T, Error>(value),
                Err(description) => r is Err && r->Err_0@ == in_context(s@, description),
            },
    ;
}

impl<T> ResultContext<T, Error> for Result<T, Error> {
    open spec fn described(self) -> Result<T, Seq<char>> {
        match self {
            Ok(value) => Ok(value),
            Err(error) => Err(error@),
        }
    }

    fn context(self, s: String) -> (r: Result<T, Error>) {
        match self {
            Ok(value) => Ok(value),
            Err(error) => Err(Error::new(s.concat(": ").concat(error.message()))),
        }
    }
}

} // verus!
