//! The lifecycle contract: the phases an execution passes through and the
//! capability a function implementation must satisfy.

use vstd::prelude::*;
use crate::args::ArgList;
use crate::cfg::UdfCfg;

verus! {

/// Marker for the initialization phase: the single `init` call that
/// validates the argument list, may request coercions, and allocates the
/// per-query state.
pub struct Init;

/// Marker for the per-row processing phase: the repeated `process` calls
/// that accumulate into the state `init` allocated.
pub struct Process;

/// The phases of one execution; configuration objects and argument lists
/// are tagged with one of them, so that an operation legal in only one
/// phase cannot be reached from the other.
pub trait UdfPhase {
}

impl UdfPhase for Init {
}

impl UdfPhase for Process {
}

/// The out-of-band signal a host may pass into `process` when it ran into
/// an error producing this row's arguments. The implementation decides
/// whether to treat it as fatal, ignore it, or substitute a default.
#[derive(Clone, Copy, Debug, PartialEq, Eq, Structural)]
pub struct ErrorCode(pub u8);

/// A per-row processing failure. It aborts the remaining rows of the
/// current execution; no per-row error is recovered implicitly, and other
/// executions are unaffected.
#[derive(Clone, Copy, Debug, PartialEq, Eq, Structural)]
pub struct ProcessError;

/// The capability an aggregate function implementation must satisfy.
///
/// The host drives one instance through one execution: it builds an
/// argument list and an initialization context, calls `init` exactly once,
/// and if that succeeds calls `process` once per input row with a fresh
/// argument list of the same positional shape; it may call `deinit` at the
/// end. A failed `init` aborts the execution before any row is processed,
/// so no instance ever reaches `process` without a successful `init`, and
/// there is no path back to the uninitialized state.
pub trait BasicUdf: Sized {
    /// The value `process` emits for each row.
    type Returns;

    /// What this implementation asks of every `process` call frame; the
    /// host guarantees at least that the frame has the positional shape
    /// that `init` accepted.
    spec fn process_req(&self, args: &ArgList<Process>) -> bool;

    /// Validate the argument list's arity and static metadata, request any
    /// coercions, and allocate the per-query state. On violation, fail with
    /// a descriptive message: the execution is then aborted before any row.
    fn init(cfg: &mut UdfCfg<Init>, args: &mut ArgList<Init>) -> Result<Self, String>;

    /// Fold one row's arguments into the state and return the value to emit
    /// for this row. Safe to call any number of times after one successful
    /// `init`; an error aborts the remainder of the execution.
    fn process(
        &mut self,
        cfg: &UdfCfg<Process>,
        args: &ArgList<Process>,
        error: Option<ErrorCode>,
    ) -> Result<Self::Returns, ProcessError>
        requires
            old(self).process_req(args),
    ;

    /// Release anything the implementation holds beyond its state; for an
    /// implementation that owns nothing else, dropping the state is enough.
    fn deinit(self);
}

} // verus!
