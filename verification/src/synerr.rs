//! Diagnostics and the accumulator that merges every failure of one
//! resolution pass into a single compound outcome.

use vstd::prelude::*;

verus! {

/// The classes of diagnostics the resolvers can report.
#[derive(Clone, Copy, PartialEq, Eq, Structural, Debug)]
pub enum DiagKind {
    /// A literal was present but its value is of the wrong type or unparseable.
    ConfigValueError,
    /// An option was given the wrong syntactic shape.
    ConfigShapeError,
    /// An unrecognized key appeared in a namespace that rejects unknown keys.
    UnknownOptionError,
    /// A full default mode and the partial default were requested together.
    ConflictingDefaultModeError,
    /// A full default mode was requested while some field lacks a default
    /// expression.
    MissingDefaultForModeError,
    /// An ordering was requested but no field participates in it.
    NoOrderableFieldError,
}

/// One diagnostic: its class and the source position of the offending option
/// or literal.
#[derive(Clone, Copy, PartialEq, Eq, Structural, Debug)]
pub struct Diag {
    pub kind: DiagKind,
    pub span: u64,
}

/// The compound failure of a resolution pass: every diagnostic gathered on
/// the way, in the order found, never just the first one.
#[derive(Debug)]
pub struct CompoundError {
    pub diags: Vec<Diag>,
}

impl CompoundError {
    /// A compound error is only ever surfaced when it holds at least one
    /// diagnostic.
    pub open spec fn wf(&self) -> bool {
        self.diags@.len() > 0
    }
}

/// Wraps a resolved value and the diagnostics of its pass into the pass's
/// outcome: the value only if no failure occurred, else all of them together.
pub fn pass_outcome<T>(value: T, diags: Vec<Diag>) -> (r: Result<T, CompoundError>)
    ensures
        diags@.len() == 0 ==> r == Result::<T, CompoundError>::Ok(value),
        diags@.len() > 0 ==> (match r {
            Result::Err(e) => e.wf() && e.diags@ == diags@,
            Result::Ok(_) => false,
        }),
{
    if diags.len() == 0 {
        Ok(value)
    } else {
        Err(CompoundError { diags })
    }
}

/// Exchanges the two sides of a `Result`.
pub trait ResultExt: Sized {
    type OkValue;

    type ErrValue;

    /// What the exchange yields.
    spec fn swap_spec(self) -> Result<Self::OkValue, Self::ErrValue>;

    /// Turns `Ok` into `Err` and `Err` into `Ok`.
    fn swap(self) -> (r: Result<Self::OkValue, Self::ErrValue>)
        ensures
            r == self.swap_spec(),
    ;
}

impl<T, E> ResultExt for Result<T, E> {
    type OkValue = E;

    type ErrValue = T;

    open spec fn swap_spec(self) -> Result<E, T> {
        match self {
            Ok(v) => Err(v),
            Err(v) => Ok(v),
        }
    }

    fn swap(self) -> (r: Result<E, T>) {
        match self {
            Ok(v) => Err(v),
            Err(v) => Ok(v),
        }
    }
}

} // verus!
