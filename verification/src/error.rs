use vstd::prelude::*;

verus! {

/// The shell's one error kind: it transparently wraps the text of an
/// underlying operating-system I/O failure.
pub enum Error {
    Io { message: String },
}

impl Error {
    /// The wrapped diagnostic text.
    pub open spec fn message_spec(&self) -> Seq<char> {
        match self {
            Error::Io { message } => message@,
        }
    }

    /// Wraps the text of an operating-system failure.
    pub fn from_os_message(message: String) -> (r: Error)
        ensures
            r.message_spec() == message@,
    {
        Error::Io { message }
    }

    /// The diagnostic text, borrowed.
    pub fn message(&self) -> (r: &str)
        ensures
            r@ == self.message_spec(),
    {
        match self {
            Error::Io { message } => message.as_str(),
        }
    }

    /// The diagnostic text, owned.
    pub fn into_message(self) -> (r: String)
        ensures
            r@ == self.message_spec(),
    {
        match self {
            Error::Io { message } => message,
        }
    }
}

} // verus!
