use vstd::prelude::*;

verus! {

/// Exception thrown from an `extern "C++"` function: the text of the C++ `what()`.
pub struct Exception {
    pub(crate) what: String,
}

impl Exception {
    /// The exception's message, as a spec value.
    pub closed spec fn message(&self) -> Seq<char> {
        self.what@
    }

    /// Makes an exception that carries `what` as its message.
    pub fn new(what: String) -> (e: Exception)
        ensures
            e.message() == what@,
    {
        Exception { what }
    }

    /// The message of the exception.
    pub fn what(&self) -> (s: &str)
        ensures
            s@ == self.message(),
    {
        self.what.as_str()
    }

    /// The text that the exception displays: its message, unchanged.
    pub fn to_string(&self) -> (s: String)
        ensures
            s@ == self.message(),
    {
        self.what.clone()
    }
}

} // verus!
