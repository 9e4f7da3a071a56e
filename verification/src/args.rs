//! Arguments and argument lists: the ordered, fixed-length sequence of
//! scalar values that the host delivers for every `init` and `process`
//! call of one execution.

use vstd::prelude::*;
use crate::lifecycle::{Init, UdfPhase};
use crate::value::{SqlType, SqlValue, ValueView};

verus! {

/// The mathematical shape of one argument: its value, its declared name,
/// whether the host may deliver it as null, and the coercion requested for
/// it during initialization, if any.
pub ghost struct ArgView {
    pub value: ValueView,
    pub attribute: Option<Seq<char>>,
    pub maybe_null: bool,
    pub coercion: Option<SqlType>,
}

/// One positional argument for one call frame: a scalar value together with
/// its static metadata.
///
/// The coercion request is advisory metadata recorded during initialization;
/// the protocol layer does not convert the value itself, it makes the
/// request visible so that the host (or a test against the mock harness)
/// can honor and inspect it.
#[derive(Debug)]
pub struct SqlArg {
    value: SqlValue,
    attribute: Option<String>,
    maybe_null: bool,
    coercion: Option<SqlType>,
}

/// The view of an optional owned string.
pub open spec fn attribute_view(a: Option<String>) -> Option<Seq<char>> {
    match a {
        Some(s) => Some(s@),
        None => None,
    }
}

impl View for SqlArg {
    type V = ArgView;

    closed spec fn view(&self) -> ArgView {
        ArgView {
            value: self.value@,
            attribute: attribute_view(self.attribute),
            maybe_null: self.maybe_null,
            coercion: self.coercion,
        }
    }
}

impl SqlArg {
    /// A fresh argument with no coercion requested yet.
    pub fn new(value: SqlValue, attribute: Option<String>, maybe_null: bool) -> (r: SqlArg)
        ensures
            r@ == (ArgView {
                value: value@,
                attribute: attribute_view(attribute),
                maybe_null,
                coercion: None,
            }),
    {
        SqlArg { value, attribute, maybe_null, coercion: None }
    }

    /// The value delivered for this argument in this call frame.
    pub fn value(&self) -> (r: &SqlValue)
        ensures
            r@ == self@.value,
    {
        &self.value
    }

    /// The declared name of this argument, if the host supplied one.
    pub fn attribute(&self) -> (r: Option<&String>)
        ensures
            match r {
                Some(s) => self@.attribute == Some(s@),
                None => self@.attribute is None,
            },
    {
        self.attribute.as_ref()
    }

    /// Whether the host may deliver this argument as null.
    pub fn maybe_null(&self) -> (r: bool)
        ensures
            r == self@.maybe_null,
    {
        self.maybe_null
    }

    /// The coercion requested for this position during initialization, if
    /// any was recorded.
    pub fn type_coercion(&self) -> (r: Option<SqlType>)
        ensures
            r == self@.coercion,
    {
        self.coercion
    }

    /// A copy of this argument, equal to it under the view.
    pub fn dup(&self) -> (r: SqlArg)
        ensures
            r@ == self@,
    {
        let attribute = match &self.attribute {
            Some(s) => Some(s.clone()),
            None => None,
        };
        SqlArg {
            value: self.value.dup(),
            attribute,
            maybe_null: self.maybe_null,
            coercion: self.coercion,
        }
    }
}

/// The views of a sequence of arguments, in order.
pub open spec fn views_of(args: Seq<SqlArg>) -> Seq<ArgView> {
    args.map_values(|a: SqlArg| a@)
}

/// A coercion request recorded at one position: the argument there carries
/// the requested type, everything else is unchanged. Recording the same
/// request twice leaves the list as after the first.
pub open spec fn spec_set_coercion(s: Seq<ArgView>, i: int, newtype: SqlType) -> Seq<ArgView> {
    s.update(i, ArgView { coercion: Some(newtype), ..s[i] })
}

/// Requesting the same coercion twice for the same position leaves the
/// list exactly as one request does.
pub proof fn lemma_coercion_request_idempotent(s: Seq<ArgView>, i: int, newtype: SqlType)
    requires
        0 <= i < s.len(),
    ensures
        spec_set_coercion(spec_set_coercion(s, i, newtype), i, newtype) == spec_set_coercion(
            s,
            i,
            newtype,
        ),
{
    assert(spec_set_coercion(spec_set_coercion(s, i, newtype), i, newtype) =~= spec_set_coercion(
        s,
        i,
        newtype,
    ));
}

/// An ordered, fixed-length argument list for one call frame, tagged with
/// the phase it was built for. Position `i` stands for the same logical
/// parameter in every call frame of one execution.
#[verifier::reject_recursive_types(P)]
#[derive(Debug)]
pub struct ArgList<P: UdfPhase> {
    args: Vec<SqlArg>,
    phase: core::marker::PhantomData<P>,
}

impl<P: UdfPhase> View for ArgList<P> {
    type V = Seq<ArgView>;

    closed spec fn view(&self) -> Seq<ArgView> {
        views_of(self.args@)
    }
}

impl<P: UdfPhase> ArgList<P> {
    /// A list of the given arguments, in the given order.
    pub fn new(args: Vec<SqlArg>) -> (r: ArgList<P>)
        ensures
            r@ == views_of(args@),
    {
        ArgList { args, phase: core::marker::PhantomData }
    }

    /// How many arguments this call frame carries; the same for every call
    /// frame of one execution.
    pub fn len(&self) -> (n: usize)
        ensures
            n == self@.len(),
    {
        self.args.len()
    }

    /// The argument at a position, or `None` past the end.
    pub fn get(&self, index: usize) -> (r: Option<&SqlArg>)
        ensures
            match r {
                Some(a) => index < self@.len() && a@ == self@[index as int],
                None => index >= self@.len(),
            },
    {
        if index < self.args.len() {
            Some(&self.args[index])
        } else {
            None
        }
    }
}

impl ArgList<Init> {
    /// Record a request that the host deliver the argument at `index`
    /// coerced to `newtype` for every later call frame of this execution.
    /// Only the initialization phase may request a coercion; a repeated
    /// request with the same type changes nothing, and of conflicting
    /// requests the last one wins.
    pub fn set_type_coercion(&mut self, index: usize, newtype: SqlType)
        requires
            index < old(self)@.len(),
        ensures
            final(self)@ == spec_set_coercion(old(self)@, index as int, newtype),
    {
        let mut arg = self.args.remove(index);
        arg.coercion = Some(newtype);
        self.args.insert(index, arg);
        proof {
            assert(self@ =~= spec_set_coercion(old(self)@, index as int, newtype));
        }
    }
}

} // verus!
