//! Failures: what the engine's driver reports, and what the store tells its
//! caller.

use vstd::prelude::*;

verus! {

/// A failed exchange with the engine, as the driver reports it.
#[derive(Clone, Debug, PartialEq, Eq)]
pub struct Fault {
    /// Whether the statement reached the engine. Where it did, the engine
    /// rejected it or the exchange broke after it was sent.
    pub reached: bool,
    /// The driver's description of the fault.
    pub message: String,
}

/// What a [`Fault`] holds.
pub struct FaultView {
    pub reached: bool,
    pub message: Seq<char>,
}

impl View for Fault {
    type V = FaultView;

    open spec fn view(&self) -> FaultView {
        FaultView { reached: self.reached, message: self.message@ }
    }
}

/// Why an operation of the store failed.
#[derive(Clone, Debug, PartialEq, Eq)]
pub enum StoreError {
    /// The statement could not reach the engine. Holds the driver's
    /// description, unchanged.
    Connection(String),
    /// The statement was sent and failed: the engine rejected it, or its
    /// answer was lost. Holds the description that came with the fault,
    /// unchanged.
    Storage(String),
    /// A fetch of one task matched no row.
    NotFound,
    /// A fetch of one task matched more than one row.
    AmbiguousResult,
}

/// What a [`StoreError`] holds.
pub enum StoreErrorView {
    Connection(Seq<char>),
    Storage(Seq<char>),
    NotFound,
    AmbiguousResult,
}

impl View for StoreError {
    type V = StoreErrorView;

    open spec fn view(&self) -> StoreErrorView {
        match self {
            StoreError::Connection(message) => StoreErrorView::Connection(message@),
            StoreError::Storage(message) => StoreErrorView::Storage(message@),
            StoreError::NotFound => StoreErrorView::NotFound,
            StoreError::AmbiguousResult => StoreErrorView::AmbiguousResult,
        }
    }
}

/// The error that a failed exchange becomes: a storage error where the
/// statement reached the engine, a connection error where it did not, each
/// with the description it came with.
pub open spec fn error_of(fault: FaultView) -> StoreErrorView {
    if fault.reached {
        StoreErrorView::Storage(fault.message)
    } else {
        StoreErrorView::Connection(fault.message)
    }
}

impl StoreError {
    /// Turns a failed exchange into the error that the caller gets. Nothing
    /// is retried and nothing is recovered.
    pub fn from_fault(fault: Fault) -> (error: StoreError)
        ensures
            error@ == error_of(fault@),
    {
        if fault.reached {
            StoreError::Storage(fault.message)
        } else {
            StoreError::Connection(fault.message)
        }
    }
}

} // verus!
