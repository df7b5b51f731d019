//! Block preparation for the rate converter. A frequency-domain resampling
//! filter consumes fixed-size input blocks, so the native-rate mono sequence
//! is cut into consecutive `BLOCK_LEN`-sample blocks, the final short block
//! zero-padded on its trailing edge. Feeding the padded region through the
//! filter adds a few milliseconds of trailing silence-derived samples to the
//! output instead of truncating it to the exact rate ratio: a deliberate
//! simplicity trade-off, acceptable for a recognizer that tolerates trailing
//! silence.
//!
//! The filter itself carries history between successive blocks and works on
//! floating-point samples, which this crate does not hold: the caller owns
//! the filter, pulls blocks from a [`BlockFeed`] one at a time, and
//! concatenates the filter's output in block order.

use vstd::arithmetic::div_mod::{lemma_fundamental_div_mod, lemma_fundamental_div_mod_converse};
use vstd::prelude::*;

use crate::errors::PipelineError;
use crate::{BLOCK_LEN, TARGET_SAMPLE_RATE};

verus! {

/// How many fixed-size blocks cover a sequence of `len` samples, the final
/// partial block counted.
pub open spec fn block_count(len: int) -> int {
    (len + BLOCK_LEN - 1) / (BLOCK_LEN as int)
}

/// A run of zero-valued samples.
pub open spec fn zeros(n: int) -> Seq<i32> {
    Seq::new(n as nat, |i: int| 0i32)
}

/// The input sequence with its trailing edge zero-padded to a whole number
/// of blocks.
pub open spec fn padded(s: Seq<i32>) -> Seq<i32> {
    s + zeros(block_count(s.len() as int) * (BLOCK_LEN as int) - s.len() as int)
}

/// The `i`-th fixed-size block of the padded input sequence.
pub open spec fn block_at(s: Seq<i32>, i: int) -> Seq<i32> {
    padded(s).subrange(i * (BLOCK_LEN as int), (i + 1) * (BLOCK_LEN as int))
}

/// Zero-padding covers the whole input and nothing but the input: the padded
/// sequence is a whole number of blocks, it begins with the input unchanged,
/// its padding is shorter than one block, and every padded position holds a
/// zero sample.
pub proof fn lemma_padding(s: Seq<i32>)
    ensures
        padded(s).len() == block_count(s.len() as int) * (BLOCK_LEN as int),
        s.len() <= padded(s).len() < s.len() + BLOCK_LEN,
        padded(s).subrange(0, s.len() as int) == s,
        forall|j: int| s.len() <= j < padded(s).len() ==> padded(s)[j] == 0i32,
{
    let len = s.len() as int;
    let b = BLOCK_LEN as int;
    lemma_fundamental_div_mod(len + b - 1, b);
    assert(len <= block_count(len) * b < len + b);
    assert(padded(s).subrange(0, len) =~= s);
}

/// Cutting the padded input at block boundaries loses nothing and reorders
/// nothing: every position of the padded input reappears in exactly one
/// block, at the offset the division gives, so the per-block outputs,
/// concatenated in block order, stand for the whole input in its original
/// temporal order.
pub proof fn lemma_blocks_cover_input(s: Seq<i32>)
    ensures
        forall|k: int|
            0 <= k < padded(s).len() ==> padded(s)[k] == block_at(s, k / (BLOCK_LEN as int))[k % (
            BLOCK_LEN as int)],
{
    lemma_padding(s);
    let b = BLOCK_LEN as int;
    let bc = block_count(s.len() as int);
    assert forall|k: int| 0 <= k < padded(s).len() implies padded(s)[k] == block_at(
        s,
        k / b,
    )[k % b] by {
        lemma_fundamental_div_mod(k, b);
        lemma_fundamental_div_mod_converse(bc * b - 1, b, bc - 1, b - 1);
        vstd::arithmetic::div_mod::lemma_div_is_ordered(k, bc * b - 1, b);
    }
}

/// Pulls consecutive fixed-size blocks from the native-rate mono sequence,
/// in temporal order; the final short block comes back zero-padded to the
/// full block length.
pub struct BlockFeed {
    input: Vec<i32>,
    pos: usize,
}

impl BlockFeed {
    /// The native-rate sequence the blocks are cut from.
    pub closed spec fn input_seq(&self) -> Seq<i32> {
        self.input@
    }

    /// How many input samples have been handed out so far.
    pub closed spec fn pos_spec(&self) -> int {
        self.pos as int
    }

    /// The cursor sits on a block boundary, or at the very end after the
    /// final partial block was handed out.
    pub open spec fn wf(&self) -> bool {
        self.pos_spec() <= self.input_seq().len() && (self.pos_spec() % (BLOCK_LEN as int) == 0
            || self.pos_spec() == self.input_seq().len())
    }

    pub fn new(input: Vec<i32>) -> (r: BlockFeed)
        ensures
            r.wf(),
            r.input_seq() == input@,
            r.pos_spec() == 0,
    {
        BlockFeed { input, pos: 0 }
    }

    /// The next block in temporal order: exactly `BLOCK_LEN` samples, the
    /// final block zero-padded past the end of the input; `None` once the
    /// whole input, including a final partial block, has been handed out.
    pub fn next_block(&mut self) -> (r: Option<Vec<i32>>)
        requires
            old(self).wf(),
        ensures
            final(self).wf(),
            final(self).input_seq() == old(self).input_seq(),
            old(self).pos_spec() == old(self).input_seq().len() ==> r is None
                && final(self).pos_spec() == old(self).pos_spec(),
            old(self).pos_spec() < old(self).input_seq().len() ==> (r matches Some(blk)
                && blk@.len() == BLOCK_LEN
                && blk@ == block_at(old(self).input_seq(), old(self).pos_spec() / (BLOCK_LEN as int))
                && final(self).pos_spec() == (if old(self).pos_spec() + BLOCK_LEN
                    <= old(self).input_seq().len() {
                    old(self).pos_spec() + BLOCK_LEN
                } else {
                    old(self).input_seq().len() as int
                })),
    {
        let len = self.input.len();
        if self.pos >= len {
            return None;
        }
        let start = self.pos;
        let end: usize = if len - start >= BLOCK_LEN {
            start + BLOCK_LEN
        } else {
            len
        };
        let mut blk: Vec<i32> = Vec::new();
        let mut k: usize = start;
        while k < end
            invariant
                start <= k <= end <= self.input@.len(),
                blk@ == self.input@.subrange(start as int, k as int),
            decreases end - k,
        {
            let v = self.input[k];
            blk.push(v);
            proof {
                assert(self.input@.subrange(start as int, k as int + 1) =~= self.input@.subrange(
                    start as int,
                    k as int,
                ).push(v));
            }
            k = k + 1;
        }
        while blk.len() < BLOCK_LEN
            invariant
                end - start <= blk@.len() <= BLOCK_LEN,
                blk@ == self.input@.subrange(start as int, end as int) + zeros(
                    blk@.len() - (end - start),
                ),
            decreases BLOCK_LEN - blk@.len(),
        {
            blk.push(0i32);
            proof {
                assert(blk@ =~= self.input@.subrange(start as int, end as int) + zeros(
                    blk@.len() - (end - start),
                ));
            }
        }
        proof {
            lemma_padding(self.input@);
            let b = BLOCK_LEN as int;
            let q = start as int / b;
            lemma_fundamental_div_mod_converse(start as int, b, q, start as int % b);
            assert(q * b == start as int);
            assert(q * b < self.input@.len() <= block_count(self.input@.len() as int) * b);
            assert((q + 1) * b == start + b);
            assert(start + b <= block_count(self.input@.len() as int) * b);
            assert(blk@ =~= block_at(self.input@, q));
        }
        self.pos = end;
        Some(blk)
    }
}

/// The resampling decision for one run: an input already at the target rate
/// passes through bit-identically, anything else is cut into blocks for the
/// filter.
pub enum ResamplePlan {
    /// The native rate already equals the target rate: the output is the
    /// input sequence itself, untouched by any filter.
    Passthrough(Vec<i32>),
    /// The input must run block by block through the resampling filter.
    Blocked(BlockFeed),
}

/// Decides how the native-rate mono sequence reaches the target rate. A
/// native rate of zero can never configure a rate converter and is rejected
/// outright; the target rate itself short-circuits to an exact, untouched
/// pass-through; any other rate yields the block feed for the filter.
pub fn plan_resample(mono: Vec<i32>, native_rate: u32) -> (r: Result<ResamplePlan, PipelineError>)
    ensures
        native_rate == 0 <==> r == Result::<ResamplePlan, PipelineError>::Err(
            PipelineError::ResamplerInitError,
        ),
        native_rate == TARGET_SAMPLE_RATE ==> (r matches Ok(p) && p matches
            ResamplePlan::Passthrough(v) && v@ == mono@),
        native_rate != 0 && native_rate != TARGET_SAMPLE_RATE ==> (r matches Ok(p) && p matches
            ResamplePlan::Blocked(f) && f.wf() && f.input_seq() == mono@ && f.pos_spec() == 0),
{
    if native_rate == 0 {
        Err(PipelineError::ResamplerInitError)
    } else if native_rate == TARGET_SAMPLE_RATE {
        Ok(ResamplePlan::Passthrough(mono))
    } else {
        Ok(ResamplePlan::Blocked(BlockFeed::new(mono)))
    }
}

} // verus!
