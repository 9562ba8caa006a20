//! Discounted cumulative sum: an exponentially decayed running total over an
//! ordered, nullable numeric column.
//!
//! The host engine works in 64-bit IEEE-754 floating point. The kernel here
//! carries every such number as its bit pattern (a plain `u64`, as produced by
//! `f64::to_bits`): the encoding is one-to-one, so nothing is lost, and the
//! whole null-handling and sequencing logic is verified over it. The one step
//! of real-number arithmetic per present element, `acc * gamma + x`, is
//! supplied by the caller as a step function on bit patterns; the contract
//! ties every emitted value to one application of that step on the carried
//! accumulator.

use vstd::prelude::*;

use crate::errors::KernelError;

verus! {

/// Bit pattern of `1.0f64`.
pub const ONE_BITS: u64 = 0x3FF0_0000_0000_0000;

/// Bit pattern of `-0.0f64`.
pub const NEG_ZERO_BITS: u64 = 0x8000_0000_0000_0000;

/// Bit pattern of `0.0f64`, the initial accumulator.
pub const ZERO_BITS: u64 = 0;

/// The decay factor `gamma` must lie in the closed interval [0.0, 1.0].
///
/// On IEEE-754 bit patterns that is an exact integer condition: non-negative
/// finite doubles order identically to their bit patterns, so `gamma` is in
/// [0.0, 1.0] exactly when its bits are at most the bits of 1.0, or are the
/// bits of -0.0 (which compares equal to 0.0). Every NaN, every infinity and
/// every negative number other than -0.0 falls outside.
pub open spec fn gamma_in_range(gamma_bits: u64) -> bool {
    gamma_bits <= ONE_BITS || gamma_bits == NEG_ZERO_BITS
}

/// The scan parameter record: the decay factor, as its IEEE-754 bit pattern.
#[derive(Clone, Copy, Debug, PartialEq, Eq, Structural)]
pub struct DiscountedCumSumKwargs {
    pub gamma_bits: u64,
}

/// The accumulator that the scan carries into position `i`: the value emitted
/// at the most recent present position before `i`, or 0.0 before any present
/// value. Null positions are skipped, so the decay chain runs straight across
/// gaps instead of resetting.
pub open spec fn carried_acc(vals: Seq<Option<u64>>, out: Seq<Option<u64>>, i: int) -> u64
    decreases i,
{
    if i <= 0 {
        ZERO_BITS
    } else if vals[i - 1] is Some {
        out[i - 1]->0
    } else {
        carried_acc(vals, out, i - 1)
    }
}

/// The scan recurrence at one position, for a given step function: a present
/// input emits exactly one application of the step to the carried accumulator
/// and the input value; a null input emits null.
pub open spec fn scan_recurrence_at<F: Fn(u64, u64) -> u64>(
    step: F,
    vals: Seq<Option<u64>>,
    out: Seq<Option<u64>>,
    i: int,
) -> bool {
    if vals[i] is Some {
        out[i] is Some && call_ensures(step, (carried_acc(vals, out, i), vals[i]->0), out[i]->0)
    } else {
        out[i] is None
    }
}

/// Carry-through on nulls: a null position leaves the carried accumulator
/// untouched — it is a gap in the output, not in the state.
pub proof fn lemma_carry_through_null(vals: Seq<Option<u64>>, out: Seq<Option<u64>>, i: int)
    requires
        0 <= i < vals.len(),
        vals[i] is None,
    ensures
        carried_acc(vals, out, i + 1) == carried_acc(vals, out, i),
{
}

/// Degenerate decay: if the step function always returns its second argument
/// — as a decay factor of zero makes the recurrence `0 * acc + x` do on
/// ordinary values — then a run of the scan returns every position of the
/// input unchanged, present values and nulls alike.
pub proof fn lemma_projection_step_is_identity<F: Fn(u64, u64) -> u64>(
    step: F,
    vals: Seq<Option<u64>>,
    out: Seq<Option<u64>>,
    i: int,
)
    requires
        forall|a: u64, b: u64, r: u64| call_ensures(step, (a, b), r) ==> r == b,
        forall|j: int| 0 <= j < vals.len() ==> #[trigger] scan_recurrence_at(step, vals, out, j),
        0 <= i < vals.len(),
    ensures
        out[i] == vals[i],
{
    assert(scan_recurrence_at(step, vals, out, i));
}

/// The carried accumulator reads only the prefix before `i` of either column,
/// so extending a run does not disturb it.
proof fn lemma_carried_acc_prefix(
    vals: Seq<Option<u64>>,
    out: Seq<Option<u64>>,
    longer_vals: Seq<Option<u64>>,
    longer_out: Seq<Option<u64>>,
    i: int,
)
    requires
        0 <= i,
        forall|j: int| 0 <= j < i ==> vals[j] == longer_vals[j] && out[j] == longer_out[j],
    ensures
        carried_acc(vals, out, i) == carried_acc(longer_vals, longer_out, i),
    decreases i,
{
    if i > 0 {
        lemma_carried_acc_prefix(vals, out, longer_vals, longer_out, i - 1);
    }
}

/// The single left-to-right pass. One mutable accumulator, initialized to the
/// bits of 0.0; a present value advances it by one application of `step` and
/// is emitted; a null is emitted as null and leaves it untouched.
pub fn kernel_discounted_cum_sum<F: Fn(u64, u64) -> u64>(
    values: &Vec<Option<u64>>,
    step: F,
) -> (out: Vec<Option<u64>>)
    requires
        forall|a: u64, b: u64| #[trigger] call_requires(step, (a, b)),
    ensures
        out@.len() == values@.len(),
        forall|i: int| 0 <= i < values@.len() ==> ((#[trigger] out@[i]) is Some <==> values@[i]
            is Some),
        forall|i: int| 0 <= i < values@.len() ==> #[trigger] scan_recurrence_at(
            step,
            values@,
            out@,
            i,
        ),
{
    let mut out: Vec<Option<u64>> = Vec::new();
    let mut running_sum: u64 = ZERO_BITS;
    let mut i: usize = 0;
    while i < values.len()
        invariant
            forall|a: u64, b: u64| #[trigger] call_requires(step, (a, b)),
            i <= values@.len(),
            out@.len() == i,
            running_sum == carried_acc(values@, out@, i as int),
            forall|k: int| 0 <= k < i ==> #[trigger] scan_recurrence_at(step, values@, out@, k),
        decreases values@.len() - i,
    {
        let ghost prev_out = out@;
        match values[i] {
            Some(x) => {
                running_sum = step(running_sum, x);
                out.push(Some(running_sum));
            },
            None => {
                out.push(None);
            },
        }
        proof {
            assert forall|k: int| 0 <= k <= i implies scan_recurrence_at(
                step,
                values@,
                out@,
                k,
            ) by {
                lemma_carried_acc_prefix(values@, prev_out, values@, out@, k);
                if k < i as int {
                    assert(scan_recurrence_at(step, values@, prev_out, k));
                    assert(out@[k] == prev_out[k]);
                }
            }
            lemma_carried_acc_prefix(values@, prev_out, values@, out@, i as int);
        }
        i += 1;
    }
    proof {
        assert forall|i: int| 0 <= i < values@.len() implies ((out@[i]) is Some <==> values@[i]
            is Some) by {
            assert(scan_recurrence_at(step, values@, out@, i));
        }
    }
    out
}

/// The full scan call: validates the decay factor, then runs the kernel.
///
/// Fails with `InvalidParameter`, before touching any element, exactly when
/// the bits of `gamma` do not encode a double in [0.0, 1.0]. On success the
/// output has the input's length, null exactly where the input is null, and
/// every present position carries one application of the step recurrence to
/// the accumulator carried across null gaps from the most recent present
/// value.
pub fn discounted_cum_sum<F: Fn(u64, u64) -> u64>(
    values: &Vec<Option<u64>>,
    kwargs: DiscountedCumSumKwargs,
    step: F,
) -> (r: Result<Vec<Option<u64>>, KernelError>)
    requires
        forall|a: u64, b: u64| #[trigger] call_requires(step, (a, b)),
    ensures
        r is Err <==> !gamma_in_range(kwargs.gamma_bits),
        r is Err ==> r->Err_0 == KernelError::InvalidParameter,
        r is Ok ==> r->Ok_0@.len() == values@.len(),
        r is Ok ==> forall|i: int|
            0 <= i < values@.len() ==> ((#[trigger] r->Ok_0@[i]) is Some <==> values@[i] is Some),
        r is Ok ==> forall|i: int|
            0 <= i < values@.len() ==> #[trigger] scan_recurrence_at(step, values@, r->Ok_0@, i),
{
    if !(kwargs.gamma_bits <= ONE_BITS || kwargs.gamma_bits == NEG_ZERO_BITS) {
        return Err(KernelError::InvalidParameter);
    }
    Ok(kernel_discounted_cum_sum(values, step))
}

} // verus!
