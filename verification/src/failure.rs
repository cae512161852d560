//! The ways in which the library's operations fail.

use vstd::prelude::*;

verus! {

/// Why an operation of the library gave no result.
#[derive(Clone, Copy, Debug, PartialEq, Eq, Structural)]
pub enum Failure {
    /// A package manager's name is not one of the known ones.
    UnsupportedManager,
    /// A package manager's command could not be run to completion.
    ManagerUnitFailure,
    /// A command's output does not give a count that fits the count type.
    ParseFailure,
    /// The counts of the package managers add up to more than the count type holds.
    CountOverflow,
    /// A line is wider than the box it has to fit in.
    LineTooLong,
}

} // verus!
