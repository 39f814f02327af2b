//
//  msgf_afrm.rs
//  Musical Sound Generator Framework
//      Audio Frame Class
//
//  A fixed-capacity buffer of Q15 audio samples with a per-block logical
//  length.  Every write through the public methods clamps the stored value
//  to +-CLIP_LEVEL (0.99 in Q15), so a well-formed frame never holds a
//  sample at or beyond full scale.
//
use vstd::prelude::*;

use crate::CLIP_LEVEL;
use crate::msgf_fp::{mul64, q15, q15_div};

verus! {

/// Clamp a sample to the +-0.99 clip window.
pub open spec fn clip_spec(v: int) -> int {
    if v > CLIP_LEVEL as int {
        CLIP_LEVEL as int
    } else if v < -(CLIP_LEVEL as int) {
        -(CLIP_LEVEL as int)
    } else {
        v
    }
}

/// True when v already lies inside the clip window.
pub open spec fn in_clip(v: int) -> bool {
    -(CLIP_LEVEL as int) <= v <= CLIP_LEVEL as int
}

/// Clamp a wide intermediate value to the clip window.
fn clip64(v: i64) -> (r: i32)
    ensures
        r as int == clip_spec(v as int),
{
    if v > CLIP_LEVEL as i64 {
        CLIP_LEVEL
    } else if v < -(CLIP_LEVEL as i64) {
        -CLIP_LEVEL
    } else {
        v as i32
    }
}

/// A frame as the constructor leaves it: empty logical region over a
/// zeroed buffer of the given capacity.
pub open spec fn frame_fresh(a: AudioFrame, cap: int) -> bool {
    &&& a.sample_number == 0
    &&& a.capacity() == cap
    &&& a.cursor() == 0
    &&& forall|k: int| 0 <= k < cap ==> a.samples()[k] == 0i32
}

pub struct AudioFrame {
    pub abuf: Vec<i32>,
    pub sample_number: usize,
    pub index: usize,
}

impl AudioFrame {
    /// The stored samples, capacity included.
    pub open spec fn samples(self) -> Seq<i32> {
        self.abuf@
    }

    /// Total capacity of the frame.
    pub open spec fn capacity(self) -> int {
        self.abuf@.len() as int
    }

    /// Position of the ring-buffer write cursor.
    pub open spec fn cursor(self) -> int {
        self.index as int
    }

    /// Well-formed: logical length fits the capacity and every stored
    /// sample lies inside the clip window.
    pub open spec fn wf(self) -> bool {
        &&& self.sample_number <= self.samples().len()
        &&& forall|k: int| 0 <= k < self.samples().len() ==> in_clip(#[trigger] self.samples()[k] as int)
    }

    pub fn new(sample_number: usize, total_size: usize) -> (r: AudioFrame)
        ensures
            r.wf(),
            r.capacity() == total_size,
            r.sample_number == if sample_number > total_size { total_size as int } else { sample_number as int },
            forall|k: int| 0 <= k < total_size ==> r.samples()[k] == 0i32,
            r.cursor() == 0,
    {
        let snum = if sample_number > total_size { total_size } else { sample_number };
        let mut abuf: Vec<i32> = Vec::new();
        let mut i: usize = 0;
        while i < total_size
            invariant
                i <= total_size,
                abuf@.len() == i,
                forall|k: int| 0 <= k < i ==> abuf@[k] == 0i32,
            decreases total_size - i,
        {
            abuf.push(0);
            i += 1;
        }
        AudioFrame { abuf, sample_number: snum, index: 0 }
    }

    pub fn set_sample_number(&mut self, snum: usize)
        requires
            old(self).wf(),
            snum <= old(self).capacity(),
        ensures
            final(self).wf(),
            final(self).samples() == old(self).samples(),
            final(self).capacity() == old(self).capacity(),
            final(self).sample_number == snum,
            final(self).cursor() == old(self).cursor(),
    {
        self.sample_number = snum;
    }

    /// Copy the logical region into a host output buffer, overwriting it.
    pub fn copy_to_sysbuf(&self, ab: &mut Vec<i32>)
        requires
            self.wf(),
            self.sample_number <= old(ab)@.len(),
        ensures
            final(ab)@.len() == old(ab)@.len(),
            forall|k: int| 0 <= k < self.sample_number ==> final(ab)@[k] == self.samples()[k],
            forall|k: int| self.sample_number <= k < old(ab)@.len() ==> final(ab)@[k] == old(ab)@[k],
    {
        let mut i: usize = 0;
        while i < self.sample_number
            invariant
                self.wf(),
                i <= self.sample_number,
                self.sample_number <= ab@.len(),
                ab@.len() == old(ab)@.len(),
                forall|k: int| 0 <= k < i ==> ab@[k] == self.samples()[k],
                forall|k: int| i <= k < old(ab)@.len() ==> ab@[k] == old(ab)@[k],
            decreases self.sample_number - i,
        {
            let v = self.abuf[i];
            ab.set(i, v);
            i += 1;
        }
    }

    /// Add the logical region into a host output buffer; the sums are
    /// clamped so the output never reaches full scale.
    pub fn add_to_sysbuf(&self, ab: &mut Vec<i32>)
        requires
            self.wf(),
            self.sample_number <= old(ab)@.len(),
            forall|k: int| 0 <= k < old(ab)@.len() ==> in_clip(#[trigger] old(ab)@[k] as int),
        ensures
            final(ab)@.len() == old(ab)@.len(),
            forall|k: int| 0 <= k < self.sample_number
                ==> final(ab)@[k] as int == clip_spec(old(ab)@[k] + self.samples()[k]),
            forall|k: int| self.sample_number <= k < old(ab)@.len() ==> final(ab)@[k] == old(ab)@[k],
            forall|k: int| 0 <= k < old(ab)@.len() ==> in_clip(#[trigger] final(ab)@[k] as int),
    {
        let mut i: usize = 0;
        while i < self.sample_number
            invariant
                self.wf(),
                i <= self.sample_number,
                self.sample_number <= ab@.len(),
                ab@.len() == old(ab)@.len(),
                forall|k: int| 0 <= k < i ==> ab@[k] as int == clip_spec(old(ab)@[k] + self.samples()[k]),
                forall|k: int| i <= k < old(ab)@.len() ==> ab@[k] == old(ab)@[k],
                forall|k: int| 0 <= k < old(ab)@.len() ==> in_clip(#[trigger] old(ab)@[k] as int),
                forall|k: int| 0 <= k < ab@.len() ==> in_clip(#[trigger] ab@[k] as int),
            decreases self.sample_number - i,
        {
            let v = clip64(ab[i] as i64 + self.abuf[i] as i64);
            ab.set(i, v);
            i += 1;
        }
    }

    /// Copy the logical region into another audio frame.
    pub fn copy_to_abuf(&self, ab: &mut AudioFrame)
        requires
            self.wf(),
            old(ab).wf(),
            self.sample_number <= old(ab).capacity(),
        ensures
            final(ab).wf(),
            final(ab).capacity() == old(ab).capacity(),
            final(ab).sample_number == old(ab).sample_number,
            final(ab).cursor() == old(ab).cursor(),
            forall|k: int| 0 <= k < self.sample_number ==> final(ab).samples()[k] == self.samples()[k],
            forall|k: int| self.sample_number <= k < old(ab).capacity()
                ==> final(ab).samples()[k] == old(ab).samples()[k],
    {
        let mut i: usize = 0;
        while i < self.sample_number
            invariant
                self.wf(),
                ab.wf(),
                i <= self.sample_number,
                self.sample_number <= ab.capacity(),
                ab.capacity() == old(ab).capacity(),
                ab.sample_number == old(ab).sample_number,
                ab.cursor() == old(ab).cursor(),
                forall|k: int| 0 <= k < i ==> ab.samples()[k] == self.samples()[k],
                forall|k: int| i <= k < old(ab).capacity() ==> ab.samples()[k] == old(ab).samples()[k],
            decreases self.sample_number - i,
        {
            let v = self.abuf[i];
            ab.abuf.set(i, v);
            i += 1;
        }
    }

    /// Write one level into the ring region and advance the cursor.
    pub fn put_into_abuf(&mut self, val: i32)
        requires
            old(self).wf(),
        ensures
            final(self).wf(),
            final(self).capacity() == old(self).capacity(),
            final(self).sample_number == old(self).sample_number,
    {
        if self.index >= self.sample_number {
            self.index = 0;
        }
        if self.index < self.sample_number {
            let v = clip64(val as i64);
            self.abuf.set(self.index, v);
            self.index += 1;
            if self.index >= self.sample_number {
                self.index = 0;
            }
        }
    }

    /// Zero the logical region.
    pub fn clr_abuf(&mut self)
        requires
            old(self).wf(),
        ensures
            final(self).wf(),
            final(self).capacity() == old(self).capacity(),
            final(self).sample_number == old(self).sample_number,
            final(self).cursor() == old(self).cursor(),
            forall|k: int| 0 <= k < old(self).sample_number ==> final(self).samples()[k] == 0i32,
            forall|k: int| old(self).sample_number <= k < old(self).capacity()
                ==> final(self).samples()[k] == old(self).samples()[k],
    {
        let mut i: usize = 0;
        while i < self.sample_number
            invariant
                self.wf(),
                i <= self.sample_number,
                self.capacity() == old(self).capacity(),
                self.sample_number == old(self).sample_number,
                self.cursor() == old(self).cursor(),
                forall|k: int| 0 <= k < i ==> self.samples()[k] == 0i32,
                forall|k: int| i <= k < old(self).capacity() ==> self.samples()[k] == old(self).samples()[k],
            decreases self.sample_number - i,
        {
            self.abuf.set(i, 0);
            i += 1;
        }
    }

    /// Store clamp(val) at position num.
    pub fn set_abuf(&mut self, num: usize, val: i32)
        requires
            old(self).wf(),
            num < old(self).sample_number,
        ensures
            final(self).wf(),
            final(self).capacity() == old(self).capacity(),
            final(self).sample_number == old(self).sample_number,
            final(self).cursor() == old(self).cursor(),
            final(self).samples() == old(self).samples().update(num as int, final(self).samples()[num as int]),
            final(self).samples()[num as int] as int == clip_spec(val as int),
    {
        let v = clip64(val as i64);
        self.abuf.set(num, v);
    }

    /// Store clamp(existing + val) at position num.
    pub fn add_to_abuf(&mut self, num: usize, val: i32)
        requires
            old(self).wf(),
            num < old(self).sample_number,
        ensures
            final(self).wf(),
            final(self).capacity() == old(self).capacity(),
            final(self).sample_number == old(self).sample_number,
            final(self).cursor() == old(self).cursor(),
            final(self).samples() == old(self).samples().update(num as int, final(self).samples()[num as int]),
            final(self).samples()[num as int] as int == clip_spec(old(self).samples()[num as int] + val),
    {
        let v = clip64(self.abuf[num] as i64 + val as i64);
        self.abuf.set(num, v);
    }

    /// Store clamp(existing * rate) at position num; rate is Q15.
    pub fn mul_abuf(&mut self, num: usize, rate: i32)
        requires
            old(self).wf(),
            num < old(self).sample_number,
        ensures
            final(self).wf(),
            final(self).capacity() == old(self).capacity(),
            final(self).sample_number == old(self).sample_number,
            final(self).cursor() == old(self).cursor(),
            final(self).samples() == old(self).samples().update(num as int, final(self).samples()[num as int]),
            final(self).samples()[num as int] as int
                == clip_spec(q15(old(self).samples()[num as int] * rate)),
    {
        assert(in_clip(self.samples()[num as int] as int));
        let v = clip64(q15_div(mul64(self.abuf[num] as i64, rate as i64)));
        self.abuf.set(num, v);
    }

    /// Read position num of the logical region.
    pub fn get_from_abuf(&self, num: usize) -> (r: Option<i32>)
        requires
            self.wf(),
        ensures
            num < self.sample_number ==> r == Some(self.samples()[num as int]),
            num >= self.sample_number ==> r.is_none(),
    {
        if num >= self.sample_number {
            return None;
        }
        Some(self.abuf[num])
    }

    /// Mix src scaled by the Q15 factor mul_value into this frame:
    /// self[i] becomes clamp(self[i] + src[i] * mul_value) for every i in
    /// the logical region covered by both frames.
    pub fn mul_and_mix(&mut self, srcbuf: &AudioFrame, mul_value: i32)
        requires
            old(self).wf(),
            srcbuf.wf(),
            0 <= mul_value <= 32768,
        ensures
            final(self).wf(),
            final(self).capacity() == old(self).capacity(),
            final(self).sample_number == old(self).sample_number,
            final(self).cursor() == old(self).cursor(),
            forall|k: int| 0 <= k < old(self).sample_number && k < srcbuf.sample_number
                ==> final(self).samples()[k] as int
                    == clip_spec(old(self).samples()[k] + q15(srcbuf.samples()[k] * mul_value)),
            forall|k: int| srcbuf.sample_number <= k < old(self).capacity()
                ==> final(self).samples()[k] == old(self).samples()[k],
            forall|k: int| old(self).sample_number <= k < old(self).capacity()
                ==> final(self).samples()[k] == old(self).samples()[k],
    {
        let mut i: usize = 0;
        while i < self.sample_number
            invariant
                self.wf(),
                srcbuf.wf(),
                i <= self.sample_number,
                self.capacity() == old(self).capacity(),
                self.sample_number == old(self).sample_number,
                self.cursor() == old(self).cursor(),
                forall|k: int| 0 <= k < i && k < srcbuf.sample_number
                    ==> self.samples()[k] as int
                        == clip_spec(old(self).samples()[k] + q15(srcbuf.samples()[k] * mul_value)),
                forall|k: int| srcbuf.sample_number <= k < old(self).capacity()
                    ==> self.samples()[k] == old(self).samples()[k],
                forall|k: int| i <= k < old(self).capacity() ==> self.samples()[k] == old(self).samples()[k],
            decreases self.sample_number - i,
        {
            match srcbuf.get_from_abuf(i) {
                Some(src_dt) => {
                    assert(src_dt == srcbuf.samples()[i as int]);
                    assert(in_clip(srcbuf.samples()[i as int] as int));
                    let val = q15_div(mul64(src_dt as i64, mul_value as i64));
                    let v = clip64(self.abuf[i] as i64 + val);
                    self.abuf.set(i, v);
                }
                None => {}
            }
            i += 1;
        }
    }
}

} // verus!
