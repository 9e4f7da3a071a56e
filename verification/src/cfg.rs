//! The invocation context: a phase-tagged configuration object describing
//! the result the host expects. Reading is legal in every phase; changing
//! the configuration is legal only during initialization.

use vstd::prelude::*;
use crate::lifecycle::{Init, UdfPhase};

verus! {

/// Phase-scoped configuration for one execution. Each execution gets its
/// own configuration and state pair; nothing is shared between executions.
#[verifier::reject_recursive_types(P)]
#[derive(Debug)]
pub struct UdfCfg<P: UdfPhase> {
    max_len: u64,
    decimals: u32,
    maybe_null: bool,
    is_const: bool,
    phase: core::marker::PhantomData<P>,
}

/// The mathematical shape of a configuration object.
pub ghost struct CfgView {
    pub max_len: u64,
    pub decimals: u32,
    pub maybe_null: bool,
    pub is_const: bool,
}

impl<P: UdfPhase> View for UdfCfg<P> {
    type V = CfgView;

    closed spec fn view(&self) -> CfgView {
        CfgView {
            max_len: self.max_len,
            decimals: self.decimals,
            maybe_null: self.maybe_null,
            is_const: self.is_const,
        }
    }
}

impl<P: UdfPhase> UdfCfg<P> {
    /// A configuration with the given settings.
    pub fn new(max_len: u64, decimals: u32, maybe_null: bool, is_const: bool) -> (r: UdfCfg<P>)
        ensures
            r@ == (CfgView { max_len, decimals, maybe_null, is_const }),
    {
        UdfCfg { max_len, decimals, maybe_null, is_const, phase: core::marker::PhantomData }
    }

    /// The maximum byte length of the result the host plans for.
    pub fn get_max_len(&self) -> (r: u64)
        ensures
            r == self@.max_len,
    {
        self.max_len
    }

    /// How many decimal places the result is declared with.
    pub fn get_decimals(&self) -> (r: u32)
        ensures
            r == self@.decimals,
    {
        self.decimals
    }

    /// Whether the result may be null.
    pub fn get_maybe_null(&self) -> (r: bool)
        ensures
            r == self@.maybe_null,
    {
        self.maybe_null
    }

    /// Whether the result is constant over the whole execution.
    pub fn get_is_const(&self) -> (r: bool)
        ensures
            r == self@.is_const,
    {
        self.is_const
    }
}

impl UdfCfg<Init> {
    /// Declare the maximum byte length of the result.
    pub fn set_max_len(&mut self, v: u64)
        ensures
            final(self)@ == (CfgView { max_len: v, ..old(self)@ }),
    {
        self.max_len = v;
    }

    /// Declare how many decimal places the result carries.
    pub fn set_decimals(&mut self, v: u32)
        ensures
            final(self)@ == (CfgView { decimals: v, ..old(self)@ }),
    {
        self.decimals = v;
    }

    /// Declare whether the result may be null.
    pub fn set_maybe_null(&mut self, v: bool)
        ensures
            final(self)@ == (CfgView { maybe_null: v, ..old(self)@ }),
    {
        self.maybe_null = v;
    }

    /// Declare whether the result is constant over the whole execution.
    pub fn set_is_const(&mut self, v: bool)
        ensures
            final(self)@ == (CfgView { is_const: v, ..old(self)@ }),
    {
        self.is_const = v;
    }
}

} // verus!
