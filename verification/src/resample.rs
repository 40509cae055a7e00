//! Drop-sample decimation of a recording to the rate the transcription
//! engine expects. No filtering is done: aliasing is accepted.

use vstd::prelude::*;

verus! {

/// The sample rate, in hertz, that transcription works at.
pub const TARGET_RATE: usize = 16_000;

/// Whether the sample at `index` of a recording made at `input_rate` hertz
/// is kept. With `ratio = input_rate / TARGET_RATE`, the sample's position
/// within the ratio is `index mod ratio`; it is kept where that position
/// rounds to zero, that is where it is under one half. Nothing is kept of a
/// recording whose rate is zero.
pub open spec fn keeps(index: int, input_rate: int) -> bool {
    input_rate > 0 && 2 * ((index * TARGET_RATE) % input_rate) < TARGET_RATE
}

/// The kept samples of `input`, in their order.
pub open spec fn decimated<T>(input: Seq<T>, input_rate: int) -> Seq<T>
    decreases input.len(),
{
    if input.len() == 0 {
        Seq::empty()
    } else {
        let head = decimated(input.drop_last(), input_rate);
        if keeps(input.len() - 1, input_rate) {
            head.push(input.last())
        } else {
            head
        }
    }
}

/// Whether the sample at `index` is kept.
fn is_kept(index: usize, input_rate: usize) -> (kept: bool)
    ensures
        kept == keeps(index as int, input_rate as int),
{
    if input_rate == 0 {
        return false;
    }
    let position: u128 = (index as u128) * (TARGET_RATE as u128);
    let phase: u128 = position % (input_rate as u128);
    2 * phase < TARGET_RATE as u128
}

/// Decimates `input`, recorded at `input_rate` hertz, to the target rate by
/// keeping the samples that `keeps` selects and dropping the others.
pub fn downsample_to_16k<T: Copy>(input: &[T], input_rate: usize) -> (output: Vec<T>)
    ensures
        output@ == decimated(input@, input_rate as int),
{
    let mut output: Vec<T> = Vec::new();
    let mut index: usize = 0;
    while index < input.len()
        invariant
            index <= input.len(),
            output@ == decimated(input@.take(index as int), input_rate as int),
        decreases input.len() - index,
    {
        proof {
            let next = input@.take(index + 1);
            assert(next.drop_last() =~= input@.take(index as int));
            assert(next.last() == input@[index as int]);
        }
        if is_kept(index, input_rate) {
            output.push(input[index]);
        }
        index += 1;
    }
    assert(input@.take(index as int) =~= input@);
    output
}

/// The number of multiples of `step` below `count`, zero included.
pub open spec fn multiples_below(count: int, step: int) -> int {
    (count + step - 1) / step
}

/// At an input rate of `step` times the target rate, the samples kept are
/// those whose index is a multiple of `step`.
pub proof fn lemma_keeps_multiples(index: int, step: int)
    requires
        0 <= index,
        1 <= step,
    ensures
        keeps(index, step * TARGET_RATE) == (index % step == 0),
{
    let target = TARGET_RATE as int;
    vstd::arithmetic::div_mod::lemma_truncate_middle(index, target, step);
    assert(step * target == target * step) by (nonlinear_arith);
    assert(index * target == target * index) by (nonlinear_arith);
    let phase = index % step;
    assert(0 <= phase < step);
    assert((index * target) % (step * target) == target * phase);
}

/// How the count of multiples grows when one more index is taken in.
proof fn lemma_multiples_step(count: int, step: int)
    requires
        0 <= count,
        1 <= step,
    ensures
        0 <= multiples_below(count, step),
        count % step == 0 ==> multiples_below(count + 1, step) == multiples_below(count, step) + 1
            && multiples_below(count, step) * step == count,
        count % step != 0 ==> multiples_below(count + 1, step) == multiples_below(count, step),
        count > 0 ==> (multiples_below(count, step) - 1) * step < count,
{
    let q = count / step;
    let r = count % step;
    vstd::arithmetic::div_mod::lemma_fundamental_div_mod(count, step);
    assert(count == step * q + r);
    assert(0 <= r < step);
    assert(0 <= q) by (nonlinear_arith)
        requires
            count == step * q + r,
            0 <= count,
            0 <= r < step,
            1 <= step,
    ;
    if r == 0 {
        assert((count + step - 1) / step == q) by (nonlinear_arith)
            requires
                count == step * q,
                1 <= step,
        ;
        assert((count + 1 + step - 1) / step == q + 1) by (nonlinear_arith)
            requires
                count == step * q,
                1 <= step,
        ;
        assert(q * step == count) by (nonlinear_arith)
            requires
                count == step * q,
        ;
        assert((q - 1) * step < count || count == 0) by (nonlinear_arith)
            requires
                count == step * q,
                1 <= step,
                0 <= count,
        ;
    } else {
        assert((count + step - 1) / step == q + 1) by (nonlinear_arith)
            requires
                count == step * q + r,
                1 <= r < step,
        ;
        assert((count + 1 + step - 1) / step == q + 1) by (nonlinear_arith)
            requires
                count == step * q + r,
                1 <= r < step,
        ;
        assert(q * step < count) by (nonlinear_arith)
            requires
                count == step * q + r,
                1 <= r,
        ;
    }
}

/// From a recording made at `step` times the target rate, decimation keeps
/// the samples at indices `0, step, 2 * step, ...` and nothing else.
pub proof fn lemma_decimated_by_step<T>(input: Seq<T>, step: int)
    requires
        1 <= step,
    ensures
        decimated(input, step * TARGET_RATE).len() == multiples_below(input.len() as int, step),
        forall|k: int|
            #![trigger decimated(input, step * TARGET_RATE)[k]]
            0 <= k < multiples_below(input.len() as int, step) ==> {
                &&& decimated(input, step * TARGET_RATE)[k] == input[k * step]
                &&& 0 <= k * step < input.len()
            },
    decreases input.len(),
{
    let rate = step * TARGET_RATE;
    let count = input.len() as int;
    if count == 0 {
        assert(multiples_below(0, step) == 0) by (nonlinear_arith)
            requires
                1 <= step,
        ;
    } else {
        let shorter = input.drop_last();
        let last = count - 1;
        lemma_decimated_by_step(shorter, step);
        lemma_keeps_multiples(last, step);
        lemma_multiples_step(last, step);
        let before = multiples_below(last, step);
        assert forall|k: int| 0 <= k < multiples_below(count, step) implies #[trigger] decimated(
            input,
            rate,
        )[k] == input[k * step] && 0 <= k * step < count by {
            if k < before {
                let picked = decimated(shorter, rate)[k];
                assert(0 <= k * step < last && picked == shorter[k * step]);
                assert(decimated(input, rate)[k] == picked);
            } else {
                assert(k == before);
                assert(last % step == 0);
                assert(k * step == last);
            }
        }
    }
}

/// From a 48 kHz recording, decimation keeps every third sample, the first
/// included: a third of the samples, rounded up.
pub proof fn lemma_decimated_from_48k<T>(input: Seq<T>)
    ensures
        decimated(input, 48_000).len() == (input.len() + 2) / 3,
        forall|k: int|
            #![trigger decimated(input, 48_000)[k]]
            0 <= k < (input.len() + 2) / 3 ==> {
                &&& decimated(input, 48_000)[k] == input[3 * k]
                &&& 0 <= 3 * k < input.len()
            },
{
    lemma_decimated_by_step(input, 3);
    assert(3 * TARGET_RATE == 48_000);
    assert forall|k: int| 0 <= k < (input.len() + 2) / 3 implies #[trigger] decimated(
        input,
        48_000,
    )[k] == input[3 * k] && 0 <= 3 * k < input.len() by {
        assert(k * 3 == 3 * k);
        assert(decimated(input, 3 * TARGET_RATE)[k] == input[k * 3]);
    }
}

} // verus!
