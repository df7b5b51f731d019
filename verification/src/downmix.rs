//! Downmixing: reducing interleaved multi-channel frames to a single
//! averaged channel, accumulated across decoded packets into the running
//! native-rate mono sequence. Timing is preserved exactly: one output sample
//! per time instant, no sample dropped or reordered.

use vstd::arithmetic::div_mod::{
    lemma_div_is_ordered, lemma_div_multiples_vanish, lemma_div_pos_is_pos,
    lemma_fundamental_div_mod, lemma_fundamental_div_mod_converse,
};
use vstd::prelude::*;

use crate::errors::PipelineError;

verus! {

/// Sum of a sequence of samples, as an unbounded integer.
pub open spec fn sample_sum(s: Seq<i32>) -> int
    decreases s.len(),
{
    if s.len() == 0 {
        0
    } else {
        sample_sum(s.drop_last()) + s.last()
    }
}

/// Integer division truncated toward zero, as the executable `/` computes it.
pub open spec fn div_trunc(a: int, b: int) -> int {
    if a >= 0 {
        a / b
    } else {
        -((-a) / b)
    }
}

/// The arithmetic mean, truncated toward zero, of the `i`-th interleaved
/// group of `channels` consecutive samples: one sample per channel, all at
/// the same time instant.
pub open spec fn group_mean(frame: Seq<i32>, channels: int, i: int) -> int {
    div_trunc(sample_sum(frame.subrange(i * channels, i * channels + channels)), channels)
}

/// The mono sequence that downmixing an interleaved frame yields: for each
/// time instant, the mean of that instant's channel group.
pub open spec fn downmix(frame: Seq<i32>, channels: int) -> Seq<i32> {
    Seq::new((frame.len() as int / channels) as nat, |i: int| group_mean(frame, channels, i) as i32)
}

/// The sum of a sequence of 32-bit samples is bounded by its length times
/// the extreme sample values.
proof fn lemma_sample_sum_bounds(s: Seq<i32>)
    ensures
        -(s.len() as int) * 0x8000_0000 <= sample_sum(s) <= (s.len() as int) * 0x7fff_ffff,
    decreases s.len(),
{
    if s.len() > 0 {
        lemma_sample_sum_bounds(s.drop_last());
    }
}

/// A truncated-toward-zero quotient of a bounded sum stays within the same
/// per-sample bounds, so every group mean fits a 32-bit sample.
proof fn lemma_div_trunc_bounds(sum: int, c: int)
    requires
        c >= 1,
        -c * 0x8000_0000 <= sum <= c * 0x7fff_ffff,
    ensures
        -0x8000_0000 <= div_trunc(sum, c) <= 0x7fff_ffff,
{
    if sum >= 0 {
        lemma_div_pos_is_pos(sum, c);
        lemma_div_is_ordered(sum, c * 0x7fff_ffff, c);
        lemma_div_multiples_vanish(0x7fff_ffff, c);
    } else {
        lemma_div_pos_is_pos(-sum, c);
        lemma_div_is_ordered(-sum, c * 0x8000_0000, c);
        lemma_div_multiples_vanish(0x8000_0000, c);
    }
}

/// Accumulates the native-rate mono sequence across decoded frames. Owns the
/// growing sequence until the whole stream is decoded; `finish` enforces the
/// pipeline's structural invariant that the result is non-empty.
pub struct Downmixer {
    mono: Vec<i32>,
}

impl View for Downmixer {
    type V = Seq<i32>;

    closed spec fn view(&self) -> Seq<i32> {
        self.mono@
    }
}

impl Downmixer {
    pub fn new() -> (r: Downmixer)
        ensures
            r@ == Seq::<i32>::empty(),
    {
        Downmixer { mono: Vec::new() }
    }

    pub fn len(&self) -> (n: usize)
        ensures
            n == self@.len(),
    {
        self.mono.len()
    }

    /// Appends one decoded frame, reduced to a single averaged channel: a
    /// one-channel frame is appended unchanged; otherwise each consecutive
    /// group of `channels` samples becomes its arithmetic mean. A frame with
    /// no channels, or one whose length is not a whole number of groups, is
    /// malformed decoder output and is rejected without changing the
    /// accumulated sequence.
    pub fn append_frame(&mut self, frame: &Vec<i32>, channels: usize) -> (r: Result<
        (),
        PipelineError,
    >)
        ensures
            (channels >= 1 && frame@.len() as int % channels as int == 0) <==> r is Ok,
            r is Ok ==> final(self)@ == old(self)@ + downmix(frame@, channels as int),
            r is Err ==> final(self)@ == old(self)@ && r == Result::<(), PipelineError>::Err(
                PipelineError::DecodeError,
            ),
    {
        if channels == 0 || frame.len() % channels != 0 {
            return Err(PipelineError::DecodeError);
        }
        let groups: usize = frame.len() / channels;
        proof {
            lemma_fundamental_div_mod(frame@.len() as int, channels as int);
        }
        let mut i: usize = 0;
        while i < groups
            invariant
                1 <= channels,
                groups == frame@.len() as int / channels as int,
                frame@.len() == groups * channels,
                frame@.len() <= usize::MAX,
                i <= groups,
                self@ == old(self)@ + downmix(frame@, channels as int).take(i as int),
            decreases groups - i,
        {
            proof {
                assert((i + 1) * channels <= groups * channels) by (nonlinear_arith)
                    requires
                        i < groups,
                        channels >= 1,
                ;
                assert(i * channels + channels == (i + 1) * channels) by (nonlinear_arith);
            }
            let base: usize = i * channels;
            let mut sum: i128 = 0;
            let mut j: usize = 0;
            while j < channels
                invariant
                    1 <= channels,
                    j <= channels,
                    base + channels <= frame@.len(),
                    frame@.len() <= usize::MAX,
                    sum == sample_sum(frame@.subrange(base as int, base as int + j as int)),
                decreases channels - j,
            {
                proof {
                    lemma_sample_sum_bounds(
                        frame@.subrange(base as int, base as int + j as int),
                    );
                }
                let s: i32 = frame[base + j];
                sum = sum + (s as i128);
                proof {
                    assert(frame@.subrange(base as int, base as int + j as int + 1).drop_last()
                        =~= frame@.subrange(base as int, base as int + j as int));
                }
                j = j + 1;
            }
            let ghost g: Seq<i32> = frame@.subrange(base as int, base as int + channels as int);
            proof {
                lemma_sample_sum_bounds(g);
                lemma_div_trunc_bounds(sum as int, channels as int);
            }
            let m: i128 = if sum >= 0 {
                ((sum as u128) / (channels as u128)) as i128
            } else {
                -((((-sum) as u128) / (channels as u128)) as i128)
            };
            proof {
                assert(m == div_trunc(sum as int, channels as int));
                assert(m == group_mean(frame@, channels as int, i as int));
            }
            self.mono.push(m as i32);
            proof {
                assert(downmix(frame@, channels as int).take(i as int + 1) =~= downmix(
                    frame@,
                    channels as int,
                ).take(i as int).push((m as i32)));
            }
            i = i + 1;
        }
        proof {
            assert(downmix(frame@, channels as int).take(groups as int) =~= downmix(
                frame@,
                channels as int,
            ));
        }
        Ok(())
    }

    /// Ends the decode stage. An input that decoded to zero samples across
    /// all packets is a fatal error, never a silently empty success.
    pub fn finish(self) -> (r: Result<Vec<i32>, PipelineError>)
        ensures
            self@.len() == 0 <==> r is Err,
            r is Err ==> r == Result::<Vec<i32>, PipelineError>::Err(PipelineError::EmptyAudioError),
            r matches Ok(v) ==> v@ == self@ && v@.len() > 0,
    {
        if self.mono.len() == 0 {
            Err(PipelineError::EmptyAudioError)
        } else {
            Ok(self.mono)
        }
    }
}

/// Downmixing distributes over concatenation: feeding frames one after the
/// other yields exactly the downmix of the single continuous stream, so
/// packet-at-a-time processing reorders, duplicates, and drops nothing.
pub proof fn lemma_downmix_concat(a: Seq<i32>, b: Seq<i32>, channels: int)
    requires
        channels >= 1,
        a.len() as int % channels == 0,
    ensures
        downmix(a + b, channels) == downmix(a, channels) + downmix(b, channels),
{
    let ka = a.len() as int / channels;
    let kb = b.len() as int / channels;
    lemma_fundamental_div_mod(a.len() as int, channels);
    lemma_fundamental_div_mod(b.len() as int, channels);
    assert((ka + kb) * channels + b.len() as int % channels == (a + b).len() as int)
        by (nonlinear_arith)
        requires
            a.len() as int == channels * ka,
            b.len() as int == channels * kb + b.len() as int % channels,
            (a + b).len() as int == a.len() as int + b.len() as int,
    ;
    lemma_fundamental_div_mod_converse(
        (a + b).len() as int,
        channels,
        ka + kb,
        b.len() as int % channels,
    );
    assert forall|i: int| 0 <= i < ka implies downmix(a + b, channels)[i] == downmix(a, channels)[i] by {
        assert(0 <= i * channels && i * channels + channels <= a.len() as int) by (nonlinear_arith)
            requires
                0 <= i < ka,
                channels >= 1,
                a.len() as int == channels * ka,
        ;
        assert((a + b).subrange(i * channels, i * channels + channels) =~= a.subrange(
            i * channels,
            i * channels + channels,
        ));
    }
    assert forall|i: int| ka <= i < ka + kb implies downmix(a + b, channels)[i] == downmix(
        b,
        channels,
    )[i - ka] by {
        let t = i - ka;
        assert(i * channels == a.len() as int + t * channels && 0 <= t * channels && t * channels
            + channels <= b.len() as int) by (nonlinear_arith)
            requires
                0 <= t,
                t + 1 <= kb,
                i == ka + t,
                channels >= 1,
                a.len() as int == channels * ka,
                channels * kb <= b.len() as int,
        ;
        assert((a + b).subrange(i * channels, i * channels + channels) =~= b.subrange(
            t * channels,
            t * channels + channels,
        ));
    }
    assert(downmix(a + b, channels) =~= downmix(a, channels) + downmix(b, channels));
}

} // verus!
