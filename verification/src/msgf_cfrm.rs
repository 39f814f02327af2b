//
//  msgf_cfrm.rs
//  Musical Sound Generator Framework
//      Control Frame Class
//
//  A buffer holding one Q15 value per AUDIO_FRAME_PER_CONTROL audio
//  frames: the envelope and the low-frequency modulator write here, and
//  the oscillators broadcast each entry over its audio frames.
//
use vstd::prelude::*;

use crate::AUDIO_FRAME_PER_CONTROL;

verus! {

/// Largest magnitude a control sample may take (4.0 in Q15, a safe
/// margin above the envelope's 1.001 ceiling).
pub const CTRL_LIMIT: i32 = 131072;

/// The largest of the first n entries, at least zero.
pub open spec fn seq_max0(s: Seq<i32>, n: int) -> int
    decreases n,
{
    if n <= 0 {
        0
    } else if s[n - 1] > seq_max0(s, n - 1) {
        s[n - 1] as int
    } else {
        seq_max0(s, n - 1)
    }
}

pub struct CtrlFrame {
    pub cbuf: Vec<i32>,
    pub sample_number: usize,
}

impl CtrlFrame {
    /// The stored control samples.
    pub open spec fn samples(self) -> Seq<i32> {
        self.cbuf@
    }

    /// Well-formed: one slot per control sample, all inside CTRL_LIMIT.
    pub open spec fn wf(self) -> bool {
        &&& self.samples().len() == self.sample_number
        &&& forall|k: int| 0 <= k < self.samples().len()
            ==> -CTRL_LIMIT <= #[trigger] self.samples()[k] <= CTRL_LIMIT
    }

    pub fn new(sample_number: usize) -> (r: CtrlFrame)
        ensures
            r.wf(),
            r.sample_number == sample_number,
            forall|k: int| 0 <= k < sample_number ==> r.samples()[k] == 0i32,
    {
        let mut cbuf: Vec<i32> = Vec::new();
        let mut i: usize = 0;
        while i < sample_number
            invariant
                i <= sample_number,
                cbuf@.len() == i,
                forall|k: int| 0 <= k < i ==> cbuf@[k] == 0i32,
            decreases sample_number - i,
        {
            cbuf.push(0);
            i += 1;
        }
        CtrlFrame { cbuf, sample_number }
    }

    /// Control samples needed to cover a block of audio frames.
    pub fn get_cbuf_size(in_number_frames: usize) -> (r: usize)
        ensures
            r == in_number_frames as int / (AUDIO_FRAME_PER_CONTROL as int),
    {
        in_number_frames / AUDIO_FRAME_PER_CONTROL
    }

    pub fn set_cbuf(&mut self, num: usize, val: i32)
        requires
            old(self).wf(),
            num < old(self).sample_number,
            -CTRL_LIMIT <= val <= CTRL_LIMIT,
        ensures
            final(self).wf(),
            final(self).sample_number == old(self).sample_number,
            final(self).samples() == old(self).samples().update(num as int, val),
    {
        self.cbuf.set(num, val);
    }

    /// The control value covering audio frame num.
    pub fn ctrl_for_audio(&self, num: usize) -> (r: i32)
        requires
            self.wf(),
            num as int / (AUDIO_FRAME_PER_CONTROL as int) < self.sample_number,
        ensures
            r == self.samples()[num as int / (AUDIO_FRAME_PER_CONTROL as int)],
            -CTRL_LIMIT <= r <= CTRL_LIMIT,
    {
        self.cbuf[num / AUDIO_FRAME_PER_CONTROL]
    }

    /// The largest control sample of the block, at least zero.
    pub fn get_max_level(&self) -> (r: i32)
        requires
            self.wf(),
        ensures
            r as int == seq_max0(self.samples(), self.sample_number as int),
            r >= 0,
            forall|k: int| 0 <= k < self.sample_number ==> #[trigger] self.samples()[k] <= r,
    {
        let mut max_val: i32 = 0;
        let mut i: usize = 0;
        while i < self.sample_number
            invariant
                self.wf(),
                i <= self.sample_number,
                max_val >= 0,
                max_val as int == seq_max0(self.samples(), i as int),
                forall|k: int| 0 <= k < i ==> #[trigger] self.samples()[k] <= max_val,
            decreases self.sample_number - i,
        {
            let val = self.cbuf[i];
            if max_val < val {
                max_val = val;
            }
            i += 1;
        }
        max_val
    }
}

} // verus!
