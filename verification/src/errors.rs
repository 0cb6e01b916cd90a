//! The error value that blocks report and the bar displays.

use vstd::prelude::*;
use vstd::string::StringExecFns;

verus! {

/// Mathematical content of an [`Error`].
pub struct ErrorView {
    pub message: Seq<char>,
    /// Kind name and instance id of the block the error is attributed to.
    pub block: Option<(Seq<char>, usize)>,
}

/// A failure, with the block it came from once that is known.
#[derive(Debug)]
pub struct Error {
    pub message: String,
    pub block: Option<(&'static str, usize)>,
}

impl View for Error {
    type V = ErrorView;

    open spec fn view(&self) -> ErrorView {
        ErrorView {
            message: self.message@,
            block: match self.block {
                Some((name, id)) => Some((name@, id)),
                None => None,
            },
        }
    }
}

/// What attribution does to an error: the message stays, the block is set.
pub open spec fn attributed(e: ErrorView, name: Seq<char>, id: usize) -> ErrorView {
    ErrorView { message: e.message, block: Some((name, id)) }
}

/// What attribution does to a block's result: success is untouched, an error
/// is kept and attributed.
pub open spec fn attributed_result(r: Result<(), ErrorView>, name: Seq<char>, id: usize) -> Result<
    (),
    ErrorView,
> {
    match r {
        Ok(()) => Ok(()),
        Err(e) => Err(attributed(e, name, id)),
    }
}

/// View of a block's result.
pub open spec fn result_view(r: Result<(), Error>) -> Result<(), ErrorView> {
    match r {
        Ok(()) => Ok(()),
        Err(e) => Err(e@),
    }
}

impl Error {
    /// An error with the given message, not yet attributed to any block.
    pub fn new(message: &str) -> (e: Error)
        ensures
            e@ == (ErrorView { message: message@, block: None }),
    {
        Error { message: String::from_str(message), block: None }
    }

    /// The text shown to the user.
    pub fn message(&self) -> (m: &str)
        ensures
            m@ == self@.message,
    {
        self.message.as_str()
    }

    /// The same error, attributed to instance `id` of block kind `name`.
    /// An earlier attribution is replaced.
    pub fn in_block(self, name: &'static str, id: usize) -> (e: Error)
        ensures
            e@ == attributed(self@, name@, id),
    {
        Error { message: self.message, block: Some((name, id)) }
    }
}

/// Attributes the error of a finished block, if there is one, to instance
/// `id` of block kind `name`. A success passes through unchanged and an
/// error is never dropped.
pub fn in_block(result: Result<(), Error>, name: &'static str, id: usize) -> (r: Result<(), Error>)
    ensures
        result_view(r) == attributed_result(result_view(result), name@, id),
        r is Ok <==> result is Ok,
{
    match result {
        Ok(()) => Ok(()),
        Err(e) => Err(e.in_block(name, id)),
    }
}

} // verus!
