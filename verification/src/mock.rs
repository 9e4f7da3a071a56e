//! The mock harness: builds argument lists and phase-scoped configuration
//! objects with the same contract surface a live host presents, from
//! literal test data, so that `init` and `process` can be exercised and
//! their effects asserted without a host process.

use vstd::prelude::*;
use crate::args::{views_of, ArgList, ArgView, SqlArg};
use crate::cfg::{CfgView, UdfCfg};
use crate::lifecycle::{Init, Process};

verus! {

/// Host-side configuration data for one mocked execution. Each test builds
/// its own, so no state leaks between tests; the phase-scoped views handed
/// out are built fresh from it.
#[derive(Debug)]
pub struct MockUdfCfg {
    pub max_len: u64,
    pub decimals: u32,
    pub maybe_null: bool,
    pub is_const: bool,
}

impl MockUdfCfg {
    /// A default configuration: zero lengths and decimals, not nullable,
    /// not constant.
    pub fn new() -> (r: MockUdfCfg)
        ensures
            r.max_len == 0 && r.decimals == 0 && !r.maybe_null && !r.is_const,
    {
        MockUdfCfg { max_len: 0, decimals: 0, maybe_null: false, is_const: false }
    }

    /// A fresh initialization-phase configuration carrying this data.
    pub fn as_init(&self) -> (r: UdfCfg<Init>)
        ensures
            r@ == (CfgView {
                max_len: self.max_len,
                decimals: self.decimals,
                maybe_null: self.maybe_null,
                is_const: self.is_const,
            }),
    {
        UdfCfg::new(self.max_len, self.decimals, self.maybe_null, self.is_const)
    }

    /// A fresh processing-phase configuration carrying this data.
    pub fn as_process(&self) -> (r: UdfCfg<Process>)
        ensures
            r@ == (CfgView {
                max_len: self.max_len,
                decimals: self.decimals,
                maybe_null: self.maybe_null,
                is_const: self.is_const,
            }),
    {
        UdfCfg::new(self.max_len, self.decimals, self.maybe_null, self.is_const)
    }
}

/// The per-position data of a mocked argument list. A test pushes one
/// argument per position, in order; every list handed out reproduces
/// exactly those positions, and each call frame gets a fresh list object
/// with the same positional identity, as the real host rebuilds its
/// argument buffers row by row.
#[derive(Debug)]
pub struct MockArgList {
    args: Vec<SqlArg>,
}

impl View for MockArgList {
    type V = Seq<ArgView>;

    closed spec fn view(&self) -> Seq<ArgView> {
        views_of(self.args@)
    }
}

/// A copy of the arguments, position by position, equal to them under the
/// view.
fn dup_args(args: &Vec<SqlArg>) -> (r: Vec<SqlArg>)
    ensures
        views_of(r@) == views_of(args@),
{
    let mut out: Vec<SqlArg> = Vec::new();
    let mut i: usize = 0;
    while i < args.len()
        invariant
            i <= args.len(),
            out@.len() == i,
            forall|j: int| 0 <= j < i ==> out@[j]@ == args@[j]@,
        decreases args.len() - i,
    {
        out.push(args[i].dup());
        i += 1;
    }
    proof {
        assert(views_of(out@) =~= views_of(args@));
    }
    out
}

impl MockArgList {
    /// An empty argument list, to be filled position by position.
    pub fn new() -> (r: MockArgList)
        ensures
            r@ == Seq::<ArgView>::empty(),
    {
        let r = MockArgList { args: Vec::new() };
        proof {
            assert(r@ =~= Seq::<ArgView>::empty());
        }
        r
    }

    /// Append one argument as the next position.
    pub fn push_arg(&mut self, arg: SqlArg)
        ensures
            final(self)@ == old(self)@.push(arg@),
    {
        self.args.push(arg);
        proof {
            assert(self@ =~= old(self)@.push(arg@));
        }
    }

    /// How many positions have been built.
    pub fn len(&self) -> (n: usize)
        ensures
            n == self@.len(),
    {
        self.args.len()
    }

    /// A fresh initialization-phase argument list with exactly these
    /// positions.
    pub fn as_init(&self) -> (r: ArgList<Init>)
        ensures
            r@ == self@,
    {
        ArgList::new(dup_args(&self.args))
    }

    /// A fresh processing-phase argument list with exactly these positions:
    /// one new call frame, sharing the positional identity of every frame
    /// built from this data.
    pub fn as_process(&self) -> (r: ArgList<Process>)
        ensures
            r@ == self@,
    {
        ArgList::new(dup_args(&self.args))
    }
}

} // verus!
