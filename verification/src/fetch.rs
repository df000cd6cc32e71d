//! Failures of the database driver, as the browser reports them.

use vstd::prelude::*;

verus! {

/// A request to the database failed.
#[derive(Debug, PartialEq, Eq)]
pub struct FetchError {
    /// What the driver said of the failure.
    pub reason: String,
}

impl View for FetchError {
    type V = Seq<char>;

    open spec fn view(&self) -> Seq<char> {
        self.reason@
    }
}

impl FetchError {
    /// A failure with the driver's account of it.
    pub fn new(reason: String) -> (error: FetchError)
        ensures
            error@ == reason@,
    {
        FetchError { reason }
    }

    /// The driver's account of the failure.
    pub fn message(&self) -> (text: String)
        ensures
            text@ == self@,
    {
        self.reason.clone()
    }
}

/// What a list of names holds, name by name.
pub open spec fn names_view(names: Seq<String>) -> Seq<Seq<char>> {
    Seq::new(names.len(), |i: int| names[i]@)
}

} // verus!
