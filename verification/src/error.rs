//! The error taxonomy of the check pipeline. Each failure aborts the current
//! tick only; none of them unschedules a job or crosses over to other jobs.

use vstd::prelude::*;

verus! {

/// Why the filter chain refused an input.
#[derive(Clone, Copy, Debug, PartialEq, Eq, Structural)]
pub enum FilterError {
    /// A CSS selector in the chain is not valid selector syntax. This fails
    /// the whole chain, not just the step that carries the selector.
    SelectorParse,
    /// The page text could not be handled as markup. The current filters
    /// treat any input as a (possibly empty) fragment, so no input of theirs
    /// produces this; the variant is part of the interface all the same.
    ParseFailure,
}

/// A network or HTTP failure while fetching the watched page.
#[derive(Clone, Debug)]
pub struct FetchError {
    pub message: String,
}

/// A connectivity or serialization failure reported by storage.
#[derive(Clone, Debug)]
pub struct StorageError {
    pub message: String,
}

/// Why one tick of the check pipeline was aborted.
#[derive(Clone, Debug)]
pub enum CheckError {
    /// Step one failed: the page could not be fetched.
    Fetch(FetchError),
    /// Step two failed: the filter chain refused the fetched text.
    Filter(FilterError),
    /// Reading the latest snapshot or persisting the new one failed.
    Storage(StorageError),
}

} // verus!
