//! The error of the ergonomic layer: a message saying what went wrong, and a context saying
//! what was being done, outermost operation first.
use vstd::prelude::*;
use crate::oxidised_bindings::OxError;

verus! {

/// An error with the operations it happened in (its context) and what went wrong.
#[derive(Clone, Debug, PartialEq, Eq)]
pub struct OwlError {
    context: String,
    error_message: String,
}

/// `context` in front of `inner`, separated by a comma, or `context` alone when `inner` is
/// empty.
pub open spec fn nest_context(context: Seq<char>, inner: Seq<char>) -> Seq<char> {
    if inner.len() == 0 {
        context
    } else {
        context + ", "@ + inner
    }
}

impl OwlError {
    pub closed spec fn spec_context(&self) -> Seq<char> {
        self.context@
    }

    pub closed spec fn spec_message(&self) -> Seq<char> {
        self.error_message@
    }

    /// An error with the given message and no context.
    pub fn custom(message: &str) -> (r: OwlError)
        ensures
            r.spec_message() == message@,
            r.spec_context().len() == 0,
    {
        OwlError { error_message: message.to_owned(), context: String::new() }
    }

    /// The operations the error happened in, outermost first.
    pub fn context(&self) -> (r: &str)
        ensures
            r@ == self.spec_context(),
    {
        self.context.as_str()
    }

    /// What went wrong.
    pub fn message(&self) -> (r: &str)
        ensures
            r@ == self.spec_message(),
    {
        self.error_message.as_str()
    }

    /// The context and the message, separated by a colon.
    pub fn to_string(&self) -> (r: String)
        ensures
            r@ == self.spec_context() + ": "@ + self.spec_message(),
    {
        let s = self.context.clone().concat(": ");
        s.concat(self.error_message.as_str())
    }

    /// The same error, happening inside the operation `context`.
    pub fn with_context(self, context: &str) -> (r: OwlError)
        ensures
            r.spec_context() == nest_context(context@, self.spec_context()),
            r.spec_message() == self.spec_message(),
    {
        let nested = if self.context.as_str().is_empty() {
            context.to_owned()
        } else {
            let c = context.to_owned().concat(", ");
            c.concat(self.context.as_str())
        };
        OwlError { context: nested, error_message: self.error_message }
    }

    /// The same error with its message replaced.
    pub fn with_message(self, message: &str) -> (r: OwlError)
        ensures
            r.spec_context() == self.spec_context(),
            r.spec_message() == message@,
    {
        OwlError { context: self.context, error_message: message.to_owned() }
    }

    /// An error with neither context nor message.
    pub fn no_message(self) -> (r: OwlError)
        ensures
            r.spec_context().len() == 0,
            r.spec_message().len() == 0,
    {
        OwlError { context: String::new(), error_message: String::new() }
    }
}

impl OxError {
    /// This error, happening inside the operation `context`: its message is the error's own.
    pub fn with_context(self, context: &str) -> (r: OwlError)
        ensures
            r.spec_context() == context@,
            r.spec_message() == self.spec_message(),
    {
        OwlError { context: context.to_owned(), error_message: self.message() }
    }

    /// This error explained by `message`, which comes before the error's own, separated by a
    /// comma.
    pub fn with_message(self, message: &str) -> (r: OwlError)
        ensures
            r.spec_context().len() == 0,
            r.spec_message() == message@ + ", "@ + self.spec_message(),
    {
        let m = message.to_owned().concat(", ");
        OwlError { context: String::new(), error_message: m.concat(self.message().as_str()) }
    }

    /// An error with neither context nor message.
    pub fn no_message(self) -> (r: OwlError)
        ensures
            r.spec_context().len() == 0,
            r.spec_message().len() == 0,
    {
        OwlError { context: String::new(), error_message: String::new() }
    }
}

} // verus!
