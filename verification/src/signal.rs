//! Layout of the benchmark input: which signal and which sample stand at each
//! position of the host data.

use vstd::arithmetic::div_mod::{
    lemma_fundamental_div_mod, lemma_fundamental_div_mod_converse, lemma_mod_bound,
};
use vstd::arithmetic::mul::lemma_mul_is_commutative;
use vstd::prelude::*;

verus! {

/// Where one sample of the input stands: the signal it belongs to, its place
/// in that signal, and the frequency of that signal.
#[derive(Debug, Copy, Clone, PartialEq, Eq, Structural)]
pub struct SamplePoint {
    /// The batch slot, counted from 0.
    pub batch_idx: usize,
    /// The place of the sample in its signal, counted from 0.
    pub sample_idx: usize,
    /// The frequency of the signal: one more than its slot.
    pub freq: usize,
}

/// The sample at position `i` of signals of `length` samples laid out back to
/// back.
pub open spec fn sample_at(i: int, length: int) -> SamplePoint {
    SamplePoint {
        batch_idx: (i / length) as usize,
        sample_idx: (i % length) as usize,
        freq: (1 + i / length) as usize,
    }
}

/// The number of samples in `batch` signals of `length` samples, where it is
/// representable.
pub fn total_size(batch: usize, length: usize) -> (total: Option<usize>)
    ensures
        total == (if batch * length <= usize::MAX {
            Some((batch * length) as usize)
        } else {
            None
        }),
{
    batch.checked_mul(length)
}

/// Position `slot * length + n` holds sample `n` of the signal in `slot`, and
/// that signal has frequency `slot + 1`: signals do not overlap, and distinct
/// slots have distinct frequencies from 1 up to the batch count.
pub proof fn lemma_slot_layout(batch: usize, length: usize, slot: int, n: int)
    requires
        0 <= slot < batch,
        0 <= n < length,
        batch * length <= usize::MAX,
    ensures
        0 <= slot * length + n < batch * length,
        sample_at(slot * length + n, length as int) == (SamplePoint {
            batch_idx: slot as usize,
            sample_idx: n as usize,
            freq: (slot + 1) as usize,
        }),
        1 <= slot + 1 <= batch,
{
    let len = length as int;
    let i = slot * len + n;
    assert(slot * len >= 0) by (nonlinear_arith)
        requires
            slot >= 0,
            len > 0,
    ;
    assert((slot + 1) * len <= batch * len) by (nonlinear_arith)
        requires
            slot + 1 <= batch,
            len > 0,
    ;
    assert((slot + 1) * len == slot * len + len) by (nonlinear_arith);
    lemma_mul_is_commutative(slot, len);
    lemma_fundamental_div_mod_converse(i, len, slot, n);
}

/// Every position of the input belongs to exactly one slot below `batch`, and
/// is found again from its slot and its place in the signal.
pub proof fn lemma_position_of_sample(batch: usize, length: usize, i: int)
    requires
        0 <= i < batch * length,
        batch * length <= usize::MAX,
    ensures
        length > 0,
        0 <= i / (length as int) < batch,
        0 <= i % (length as int) < length,
        i == (i / (length as int)) * length + i % (length as int),
        sample_at(i, length as int).freq == sample_at(i, length as int).batch_idx + 1,
{
    let len = length as int;
    if length == 0 {
        assert(batch * length == 0) by (nonlinear_arith)
            requires
                length == 0,
        ;
    }
    lemma_fundamental_div_mod(i, len);
    lemma_mod_bound(i, len);
    let q = i / len;
    lemma_mul_is_commutative(q, len);
    if q < 0 {
        assert(q * len <= -len) by (nonlinear_arith)
            requires
                q <= -1,
                len > 0,
        ;
    }
    if q >= batch {
        assert(q * len >= batch * len) by (nonlinear_arith)
            requires
                q >= batch,
                len > 0,
        ;
    }
}

/// Lays out the input of the benchmark: for every position `i` below
/// `batch * length`, the slot `i / length`, the sample `i % length`, and the
/// frequency `1 + i / length` of the cosine that is sampled there.
pub fn generate_input_data(batch: usize, length: usize) -> (data: Vec<SamplePoint>)
    requires
        batch * length <= usize::MAX,
    ensures
        data@.len() == batch * length,
        forall|i: int| 0 <= i < data@.len() ==> #[trigger] data@[i] == sample_at(i, length as int),
{
    let total_size: usize = batch * length;
    let mut data: Vec<SamplePoint> = Vec::with_capacity(total_size);
    let mut i: usize = 0;
    while i < total_size
        invariant
            i <= total_size,
            total_size == batch * length,
            data@.len() == i,
            forall|j: int| 0 <= j < i ==> #[trigger] data@[j] == sample_at(j, length as int),
        decreases total_size - i,
    {
        proof {
            lemma_position_of_sample(batch, length, i as int);
        }
        let batch_idx: usize = i / length;
        let sample_idx: usize = i % length;
        data.push(SamplePoint { batch_idx, sample_idx, freq: 1 + batch_idx });
        i = i + 1;
    }
    data
}

} // verus!
