//! A running-total aggregate: the integer at position zero of every row is
//! folded into a 64-bit signed accumulator, a null row contributing
//! nothing, and each `process` call emits the total so far.

use vstd::prelude::*;
use vstd::string::StringExecFns;
use crate::args::{spec_set_coercion, ArgList};
use crate::cfg::UdfCfg;
use crate::lifecycle::{BasicUdf, ErrorCode, Init, Process, ProcessError};
use crate::text::{append_decimal, dec_rep};
use crate::value::{SqlType, ValueView};

verus! {

/// What one row's first argument adds to the running total: the integer it
/// carries, and nothing for a null (or any non-integer) value.
pub open spec fn contribution(v: ValueView) -> int {
    match v {
        ValueView::Int(i) => i as int,
        _ => 0,
    }
}

/// The total contributed by a sequence of row values.
pub open spec fn total_of(vs: Seq<ValueView>) -> int
    decreases vs.len(),
{
    if vs.len() == 0 {
        0
    } else {
        total_of(vs.drop_last()) + contribution(vs.last())
    }
}

/// The value `process` emits for each row of a sequence, starting from the
/// declared initial state: the running total after that row.
pub open spec fn outputs_of(vs: Seq<ValueView>) -> Seq<int> {
    Seq::new(vs.len(), |i: int| total_of(vs.take(i + 1)))
}

/// The sum of a sequence of integers.
pub open spec fn sum_of(xs: Seq<i64>) -> int
    decreases xs.len(),
{
    if xs.len() == 0 {
        0
    } else {
        sum_of(xs.drop_last()) + xs.last()
    }
}

/// The running prefix sums of a sequence of integers.
pub open spec fn prefix_sums(xs: Seq<i64>) -> Seq<int> {
    Seq::new(xs.len(), |i: int| sum_of(xs.take(i + 1)))
}

/// Appending one row value moves the total by that value's contribution.
pub proof fn lemma_total_push(vs: Seq<ValueView>, v: ValueView)
    ensures
        total_of(vs.push(v)) == total_of(vs) + contribution(v),
{
    assert(vs.push(v).drop_last() =~= vs);
}

/// Over integer rows the aggregate is exactly summation: the outputs of a
/// sequence of non-null integer inputs are the running prefix sums of
/// those integers.
pub proof fn lemma_outputs_are_prefix_sums(vs: Seq<ValueView>, xs: Seq<i64>)
    requires
        vs.len() == xs.len(),
        forall|i: int| 0 <= i < vs.len() ==> vs[i] == ValueView::Int(xs[i]),
    ensures
        outputs_of(vs) == prefix_sums(xs),
{
    assert forall|i: int| 0 <= i < vs.len() implies #[trigger] total_of(vs.take(i + 1)) == sum_of(
        xs.take(i + 1),
    ) by {
        lemma_total_eq_sum(vs.take(i + 1), xs.take(i + 1));
    }
    assert(outputs_of(vs) =~= prefix_sums(xs));
}

proof fn lemma_total_eq_sum(vs: Seq<ValueView>, xs: Seq<i64>)
    requires
        vs.len() == xs.len(),
        forall|i: int| 0 <= i < vs.len() ==> vs[i] == ValueView::Int(xs[i]),
    ensures
        total_of(vs) == sum_of(xs),
    decreases vs.len(),
{
    if vs.len() > 0 {
        lemma_total_eq_sum(vs.drop_last(), xs.drop_last());
    }
}

/// A null row changes nothing: the output for it is the running total
/// unchanged (zero if it is the first row).
pub proof fn lemma_null_row_output_unchanged(vs: Seq<ValueView>, i: int)
    requires
        0 <= i < vs.len(),
        vs[i] is Null,
    ensures
        outputs_of(vs)[i] == if i == 0 {
            0int
        } else {
            outputs_of(vs)[i - 1]
        },
{
    assert(vs.take(i + 1) =~= vs.take(i).push(vs[i]));
    lemma_total_push(vs.take(i), vs[i]);
    if i == 0 {
        assert(vs.take(0) =~= Seq::<ValueView>::empty());
    }
}

/// A null row contributes exactly nothing: leaving it out of the sequence
/// leaves the final total unchanged.
pub proof fn lemma_null_contributes_nothing(vs: Seq<ValueView>, i: int)
    requires
        0 <= i < vs.len(),
        vs[i] is Null,
    ensures
        total_of(vs.remove(i)) == total_of(vs),
    decreases vs.len(),
{
    if i == vs.len() - 1 {
        assert(vs.remove(i) =~= vs.drop_last());
    } else {
        let s = vs.drop_last();
        lemma_null_contributes_nothing(s, i);
        assert(vs.remove(i) =~= s.remove(i).push(vs.last()));
        lemma_total_push(s.remove(i), vs.last());
    }
}

/// The message `init` fails with when the argument list does not have
/// exactly the one declared argument: it names the expected count and the
/// actual one.
pub open spec fn arity_message(actual: nat) -> Seq<char> {
    "expected 1 argument; got "@ + dec_rep(actual)
}

/// Whether a total still fits the 64-bit signed accumulator.
pub open spec fn fits_i64(x: int) -> bool {
    i64::MIN as int <= x <= i64::MAX as int
}

/// The running-total aggregate's per-query state: the accumulator, owned
/// by one instance and mutated only by `process` calls on that instance.
#[derive(Debug, PartialEq, Eq, Structural)]
pub struct RunningTotal(pub i64);

impl View for RunningTotal {
    type V = int;

    open spec fn view(&self) -> int {
        self.0 as int
    }
}

impl BasicUdf for RunningTotal {
    type Returns = i64;

    /// Every `process` call frame must have the one-argument shape that
    /// `init` accepted; the host keeps the shape fixed across the
    /// execution.
    open spec fn process_req(&self, args: &ArgList<Process>) -> bool {
        args@.len() == 1
    }

    /// Accept exactly one argument, ask the host to deliver it as an
    /// integer, and start the accumulator at zero; reject any other arity
    /// with a message naming the expected and the actual count, leaving
    /// the argument list untouched.
    fn init(cfg: &mut UdfCfg<Init>, args: &mut ArgList<Init>) -> (r: Result<Self, String>)
        ensures
            r matches Ok(state) ==> old(args)@.len() == 1 && state@ == 0 && final(args)@
                == spec_set_coercion(old(args)@, 0, SqlType::Int),
            r matches Err(m) ==> old(args)@.len() != 1 && m@ == arity_message(old(args)@.len())
                && final(args)@ == old(args)@,
            *final(cfg) == *old(cfg),
    {
        let n: usize = args.len();
        if n != 1 {
            let mut m = String::from_str("expected 1 argument; got ");
            append_decimal(&mut m, n);
            return Err(m);
        }
        args.set_type_coercion(0, SqlType::Int);
        Ok(RunningTotal(0))
    }

    /// Fold the row's first value into the accumulator — its integer if it
    /// carries one, nothing for a null — and emit the new total. The one
    /// per-row failure is an accumulator overflow, which leaves the state
    /// unchanged and aborts the execution; the host's error indicator is
    /// deliverable but deliberately ignored.
    fn process(
        &mut self,
        cfg: &UdfCfg<Process>,
        args: &ArgList<Process>,
        error: Option<ErrorCode>,
    ) -> (r: Result<i64, ProcessError>)
        ensures
            r matches Ok(out) ==> fits_i64(old(self)@ + contribution(args@[0].value))
                && final(self)@ == old(self)@ + contribution(args@[0].value)
                && out as int == final(self)@,
            r matches Err(_) ==> !fits_i64(old(self)@ + contribution(args@[0].value))
                && *final(self) == *old(self),
    {
        let arg = match args.get(0) {
            Some(a) => a,
            None => {
                return Err(ProcessError);
            },
        };
        let x: i64 = match arg.value().as_int() {
            Some(i) => i,
            None => 0,
        };
        match self.0.checked_add(x) {
            Some(total) => {
                self.0 = total;
                Ok(total)
            },
            None => Err(ProcessError),
        }
    }

    /// The accumulator owns nothing beyond itself; dropping it is the
    /// whole teardown.
    fn deinit(self) {
    }
}

} // verus!
