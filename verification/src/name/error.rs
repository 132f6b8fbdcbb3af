//! What can be wrong with a name table.

use vstd::prelude::*;

verus! {

/// The step at which reading a name from the table failed. Each of them means
/// that the table itself is unfit, so none is worth a retry.
#[derive(Clone, Copy, Debug, PartialEq, Eq, Structural)]
pub enum NameError {
    /// The table has no `first_name` or no `last_name` key.
    MissingCategory,
    /// `first_name` holds nothing under the gender's key.
    MissingGenderBucket,
    /// The pool is a list without entries, so there is nothing to draw.
    EmptyPool,
    /// What was drawn is not a list of exactly three texts.
    MalformedEntry,
}

impl NameError {
    /// The diagnostic that [`NameError::message`] gives for this error.
    pub open spec fn message_model(self) -> Seq<char> {
        match self {
            NameError::MissingCategory => "missing category"@,
            NameError::MissingGenderBucket => "missing gender bucket"@,
            NameError::EmptyPool => "empty pool"@,
            NameError::MalformedEntry => "malformed entry shape"@,
        }
    }

    /// A short diagnostic that names the step that failed.
    pub fn message(&self) -> (m: &'static str)
        ensures
            m@ == self.message_model(),
    {
        match self {
            NameError::MissingCategory => "missing category",
            NameError::MissingGenderBucket => "missing gender bucket",
            NameError::EmptyPool => "empty pool",
            NameError::MalformedEntry => "malformed entry shape",
        }
    }
}

} // verus!
