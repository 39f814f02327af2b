//
//  msgf_if.rs
//  Musical Sound Generator Framework
//      Engine entry points
//
//  The top of the signal graph: the MIDI event queue, the per-part
//  dispatch, the stereo summing, and the global send-effect delay.
//  One queued event is drained per rendered block.
//
use vstd::prelude::*;

use crate::{AUDIO_FRAME_PER_CONTROL, MAX_BUFFER_SIZE, MAX_PART_NUM};
use crate::msgf_afrm::{AudioFrame, in_clip};
use crate::msgf_delay::DelayParameter;
use crate::msgf_part::{Part, part_fresh_spec, part_processed_rel, part_caches_same_except,
    part_control_change_rel, part_program_change_rel, part_pitch_bend_rel};
use crate::msgf_inst::{inst_note_on_rel, inst_note_off_rel};
use crate::msgf_sd_delay::SdDelay;

verus! {

/// Left and right delay of the global send effect, in frames, and its
/// Q15 feedback.
pub const TOTAL_EFF_DLY_TIME_L: usize = 11025;

pub const TOTAL_EFF_DLY_TIME_R: usize = 11907;

pub const TOTAL_EFF_ATT_RATE: i32 = 9830;

/// What draining one queued event does to the parts: the addressed
/// part takes the mapped action on the masked data bytes, every other
/// part stays, and an unrecognised status or out-of-range channel does
/// nothing.
pub open spec fn event_dispatch_rel(pre: Seq<Part>, post: Seq<Part>, ev: (u8, usize, u8, u8)) -> bool {
    let status = ev.0;
    let ch = ev.1 as int;
    let d2 = ev.2 & 0x7f;
    let d3 = ev.3 & 0x7f;
    if ch >= pre.len() {
        post == pre
    } else {
        &&& post.len() == pre.len()
        &&& (forall|i: int| 0 <= i < pre.len() && i != ch ==> post[i] == pre[i])
        &&& ({
            let p0 = pre[ch];
            let p1 = post[ch];
            if status == 0x80 {
                part_caches_same_except(p0, p1, -1) && inst_note_off_rel(p0.inst, p1.inst, d2)
            } else if status == 0x90 {
                if d3 == 0 {
                    part_caches_same_except(p0, p1, -1) && inst_note_off_rel(p0.inst, p1.inst, d2)
                } else {
                    part_caches_same_except(p0, p1, -1) && inst_note_on_rel(p0.inst, p1.inst, d2, d3)
                }
            } else if status == 0xa0 {
                p1 == p0
            } else if status == 0xb0 {
                part_control_change_rel(p0, p1, d2, d3)
            } else if status == 0xc0 {
                part_program_change_rel(p0, p1, d2)
            } else if status == 0xe0 {
                part_pitch_bend_rel(p0, p1, ((d2 as int) + 128 * (d3 as int) - 8192) as i16)
            } else {
                p1 == p0
            }
        })
    }
}

pub struct Msgf {
    pub msg_buf: Vec<(u8, usize, u8, u8)>,
    pub part: Vec<Part>,
    pub audio_buffer_l: AudioFrame,
    pub audio_buffer_r: AudioFrame,
    pub audio_buffer_send_effect_l: AudioFrame,
    pub audio_buffer_send_effect_r: AudioFrame,
    pub audio_buffer_total_effect_l: AudioFrame,
    pub audio_buffer_total_effect_r: AudioFrame,
    pub delay: SdDelay,
    pub in_number_frames: u32,
}

impl Msgf {
    pub open spec fn wf(self) -> bool {
        &&& forall|i: int| 0 <= i < self.part@.len() ==> (#[trigger] self.part@[i]).wf()
        &&& self.audio_buffer_l.wf() && self.audio_buffer_l.capacity() == MAX_BUFFER_SIZE
        &&& self.audio_buffer_r.wf() && self.audio_buffer_r.capacity() == MAX_BUFFER_SIZE
        &&& self.audio_buffer_send_effect_l.wf()
        &&& self.audio_buffer_send_effect_l.capacity() == MAX_BUFFER_SIZE
        &&& self.audio_buffer_send_effect_r.wf()
        &&& self.audio_buffer_send_effect_r.capacity() == MAX_BUFFER_SIZE
        &&& self.audio_buffer_total_effect_l.wf()
        &&& self.audio_buffer_total_effect_l.capacity() == MAX_BUFFER_SIZE
        &&& self.audio_buffer_total_effect_r.wf()
        &&& self.audio_buffer_total_effect_r.capacity() == MAX_BUFFER_SIZE
        &&& self.delay.wf()
        &&& forall|i: int| 0 <= i < self.msg_buf@.len() ==> (#[trigger] self.msg_buf@[i]).1 < MAX_PART_NUM
    }

    pub fn new() -> (r: Msgf)
        ensures
            r.wf(),
            r.msg_buf@.len() == 0,
            r.part@.len() == 0,
            crate::msgf_afrm::frame_fresh(r.audio_buffer_l, MAX_BUFFER_SIZE as int),
            crate::msgf_afrm::frame_fresh(r.audio_buffer_r, MAX_BUFFER_SIZE as int),
            crate::msgf_afrm::frame_fresh(r.audio_buffer_send_effect_l, MAX_BUFFER_SIZE as int),
            crate::msgf_afrm::frame_fresh(r.audio_buffer_send_effect_r, MAX_BUFFER_SIZE as int),
            crate::msgf_afrm::frame_fresh(r.audio_buffer_total_effect_l, MAX_BUFFER_SIZE as int),
            crate::msgf_afrm::frame_fresh(r.audio_buffer_total_effect_r, MAX_BUFFER_SIZE as int),
            crate::msgf_sd_delay::sd_delay_fresh(r.delay, (DelayParameter {
                l_time: TOTAL_EFF_DLY_TIME_L,
                r_time: TOTAL_EFF_DLY_TIME_R,
                att_ratio: TOTAL_EFF_ATT_RATE,
            })),
            r.in_number_frames == 0,
    {
        let dprm = DelayParameter {
            l_time: TOTAL_EFF_DLY_TIME_L,
            r_time: TOTAL_EFF_DLY_TIME_R,
            att_ratio: TOTAL_EFF_ATT_RATE,
        };
        Msgf {
            msg_buf: Vec::new(),
            part: Vec::new(),
            audio_buffer_l: AudioFrame::new(0, MAX_BUFFER_SIZE),
            audio_buffer_r: AudioFrame::new(0, MAX_BUFFER_SIZE),
            audio_buffer_send_effect_l: AudioFrame::new(0, MAX_BUFFER_SIZE),
            audio_buffer_send_effect_r: AudioFrame::new(0, MAX_BUFFER_SIZE),
            audio_buffer_total_effect_l: AudioFrame::new(0, MAX_BUFFER_SIZE),
            audio_buffer_total_effect_r: AudioFrame::new(0, MAX_BUFFER_SIZE),
            delay: SdDelay::new(&dprm),
            in_number_frames: 0,
        }
    }

    /// Populate the parts; call this right after new().
    pub fn init(&mut self)
        requires
            old(self).wf(),
        ensures
            final(self).wf(),
            final(self).part@.len() == old(self).part@.len() + MAX_PART_NUM,
            forall|i: int| 0 <= i < old(self).part@.len()
                ==> final(self).part@[i] == old(self).part@[i],
            forall|i: int| old(self).part@.len() <= i < final(self).part@.len()
                ==> part_fresh_spec(#[trigger] final(self).part@[i]),
    {
        let mut k: usize = 0;
        while k < MAX_PART_NUM
            invariant
                old(self).wf(),
                k <= MAX_PART_NUM,
                self.wf(),
                self.part@.len() == old(self).part@.len() + k,
                forall|i: int| 0 <= i < old(self).part@.len()
                    ==> self.part@[i] == old(self).part@[i],
                forall|i: int| old(self).part@.len() <= i < self.part@.len()
                    ==> part_fresh_spec(#[trigger] self.part@[i]),
                self.msg_buf@ == old(self).msg_buf@,
                self.audio_buffer_l == old(self).audio_buffer_l,
                self.audio_buffer_r == old(self).audio_buffer_r,
                self.audio_buffer_send_effect_l == old(self).audio_buffer_send_effect_l,
                self.audio_buffer_send_effect_r == old(self).audio_buffer_send_effect_r,
                self.audio_buffer_total_effect_l == old(self).audio_buffer_total_effect_l,
                self.audio_buffer_total_effect_r == old(self).audio_buffer_total_effect_r,
                self.delay == old(self).delay,
            decreases MAX_PART_NUM - k,
        {
            self.part.push(Part::new());
            k += 1;
        }
    }

    /// Queue a three-byte MIDI message: the low nibble of the status
    /// byte addresses a part; out-of-range channels are dropped.
    pub fn recieve_midi_message(&mut self, dt1: u8, dt2: u8, dt3: u8)
        requires
            old(self).wf(),
        ensures
            final(self).wf(),
            *final(self) == (Msgf { msg_buf: final(self).msg_buf, ..*old(self) }),
            (dt1 & 0x0f) < MAX_PART_NUM as u8 ==> final(self).msg_buf@
                == old(self).msg_buf@.push((dt1 & 0xf0, (dt1 & 0x0f) as usize, dt2, dt3)),
            (dt1 & 0x0f) >= MAX_PART_NUM as u8 ==> final(self).msg_buf@ == old(self).msg_buf@,
    {
        let ch: usize = (dt1 & 0x0f) as usize;
        let status = dt1 & 0xf0;
        if ch >= MAX_PART_NUM {
            return;
        }
        self.msg_buf.push((status, ch, dt2, dt3));
    }

    /// Drain one queued event into its part.
    fn parse_msg(&mut self)
        requires
            old(self).wf(),
        ensures
            final(self).wf(),
            final(self).part@.len() == old(self).part@.len(),
            final(self).msg_buf@.len()
                == (if old(self).msg_buf@.len() > 0 { old(self).msg_buf@.len() - 1 } else { 0int }),
            old(self).msg_buf@.len() > 0 ==> final(self).msg_buf@ == old(self).msg_buf@.subrange(
                1, old(self).msg_buf@.len() as int),
            old(self).msg_buf@.len() == 0 ==> final(self).part@ == old(self).part@,
            old(self).msg_buf@.len() > 0 ==> event_dispatch_rel(
                old(self).part@, final(self).part@, old(self).msg_buf@[0]),
    {
        if self.msg_buf.len() == 0 {
            return;
        }
        let (status, ch, dt2, dt3) = self.msg_buf.remove(0);
        proof {
            assert(self.msg_buf@ =~= old(self).msg_buf@.subrange(1, old(self).msg_buf@.len() as int));
            assert((status, ch, dt2, dt3) == old(self).msg_buf@[0]);
        }
        if ch >= self.part.len() {
            return;
        }
        let d2 = dt2 & 0x7f;
        let d3 = dt3 & 0x7f;
        proof {
            assert(dt2 & 0x7f < 128) by (bit_vector);
            assert(dt3 & 0x7f < 128) by (bit_vector);
        }
        match status {
            0x80 => self.part[ch].note_off(d2, d3),
            0x90 => {
                if d3 == 0 {
                    self.part[ch].note_off(d2, d3);
                } else {
                    self.part[ch].note_on(d2, d3);
                }
            }
            0xa0 => self.part[ch].per_note_after(d2, d3),
            0xb0 => self.part[ch].control_change(d2, d3),
            0xc0 => self.part[ch].program_change(d2),
            0xe0 => {
                let mut bend: i16 = d2 as i16;
                bend += d3 as i16 * 128;
                bend -= 8192;
                self.part[ch].pitch_bend(bend);
            }
            _ => {}
        }
    }

    /// Render one block: drain one queued event into its part, render
    /// part zero onto the outputs, add the rest, run the effect bus
    /// through the global delay and add it in.  Every output sample of
    /// the block stays strictly inside full scale, slots past the block
    /// keep their values, and every part first takes the drained
    /// event's effect and then its block step.
    pub fn process(&mut self, abuf_l: &mut Vec<i32>, abuf_r: &mut Vec<i32>, in_number_frames: u32)
        requires
            old(self).wf(),
            old(self).part@.len() == MAX_PART_NUM,
            old(abuf_l)@.len() == MAX_BUFFER_SIZE,
            old(abuf_r)@.len() == MAX_BUFFER_SIZE,
            forall|k: int| 0 <= k < MAX_BUFFER_SIZE ==> in_clip(#[trigger] old(abuf_l)@[k] as int),
            forall|k: int| 0 <= k < MAX_BUFFER_SIZE ==> in_clip(#[trigger] old(abuf_r)@[k] as int),
            (in_number_frames as int) % (AUDIO_FRAME_PER_CONTROL as int) == 0,
            in_number_frames <= MAX_BUFFER_SIZE as u32,
        ensures
            final(self).wf(),
            final(self).part@.len() == old(self).part@.len(),
            final(abuf_l)@.len() == MAX_BUFFER_SIZE,
            final(abuf_r)@.len() == MAX_BUFFER_SIZE,
            forall|k: int| 0 <= k < MAX_BUFFER_SIZE ==> in_clip(#[trigger] final(abuf_l)@[k] as int),
            forall|k: int| 0 <= k < MAX_BUFFER_SIZE ==> in_clip(#[trigger] final(abuf_r)@[k] as int),
            forall|k: int| in_number_frames <= k < MAX_BUFFER_SIZE
                ==> #[trigger] final(abuf_l)@[k] == old(abuf_l)@[k],
            forall|k: int| in_number_frames <= k < MAX_BUFFER_SIZE
                ==> #[trigger] final(abuf_r)@[k] == old(abuf_r)@[k],
            final(self).msg_buf@.len()
                == (if old(self).msg_buf@.len() > 0 { old(self).msg_buf@.len() - 1 } else { 0int }),
            old(self).msg_buf@.len() > 0 ==> final(self).msg_buf@ == old(self).msg_buf@.subrange(
                1, old(self).msg_buf@.len() as int),
            exists|mid: Seq<Part>|
                #![trigger mid.len()]
            {
                &&& (old(self).msg_buf@.len() == 0 ==> mid == old(self).part@)
                &&& (old(self).msg_buf@.len() > 0 ==> event_dispatch_rel(
                        old(self).part@, mid, old(self).msg_buf@[0]))
                &&& mid.len() == MAX_PART_NUM
                &&& (forall|i: int| 0 <= i < mid.len() ==> part_processed_rel(
                        #[trigger] mid[i], final(self).part@[i], in_number_frames as int))
            },
    {
        self.parse_msg();
        let ghost mid: Seq<Part> = self.part@;
        if self.in_number_frames != in_number_frames {
            self.in_number_frames = in_number_frames;
        }
        let n = in_number_frames as usize;
        self.audio_buffer_l.set_sample_number(n);
        self.audio_buffer_r.set_sample_number(n);
        self.audio_buffer_send_effect_l.set_sample_number(n);
        self.audio_buffer_send_effect_r.set_sample_number(n);
        self.audio_buffer_total_effect_l.set_sample_number(n);
        self.audio_buffer_total_effect_r.set_sample_number(n);
        self.audio_buffer_total_effect_l.clr_abuf();
        self.audio_buffer_total_effect_r.clr_abuf();
        proof {
            assert(self.part@[0].wf());
        }
        let mut p0 = self.part.remove(0);
        proof {
            assert(p0 == mid[0]);
        }
        p0.process(
            &mut self.audio_buffer_l,
            &mut self.audio_buffer_r,
            &mut self.audio_buffer_total_effect_l,
            &mut self.audio_buffer_total_effect_r,
            n);
        self.part.insert(0, p0);
        proof {
            assert(self.part@ =~= mid.update(0, p0));
        }
        self.audio_buffer_l.copy_to_sysbuf(abuf_l);
        self.audio_buffer_r.copy_to_sysbuf(abuf_r);
        proof {
            assert forall|k: int| 0 <= k < MAX_BUFFER_SIZE implies in_clip(#[trigger] abuf_l@[k] as int) by {
                if k < n {
                    assert(in_clip(self.audio_buffer_l.samples()[k] as int));
                }
            }
            assert forall|k: int| 0 <= k < MAX_BUFFER_SIZE implies in_clip(#[trigger] abuf_r@[k] as int) by {
                if k < n {
                    assert(in_clip(self.audio_buffer_r.samples()[k] as int));
                }
            }
        }
        let mut i: usize = 1;
        while i < self.part.len()
            invariant
                old(self).wf(),
                1 <= i <= self.part@.len(),
                self.part@.len() == MAX_PART_NUM,
                self.wf(),
                self.audio_buffer_l.sample_number == n,
                self.audio_buffer_r.sample_number == n,
                self.audio_buffer_send_effect_l.sample_number == n,
                self.audio_buffer_send_effect_r.sample_number == n,
                self.audio_buffer_total_effect_l.sample_number == n,
                self.audio_buffer_total_effect_r.sample_number == n,
                n <= MAX_BUFFER_SIZE,
                (n as int) % (AUDIO_FRAME_PER_CONTROL as int) == 0,
                abuf_l@.len() == MAX_BUFFER_SIZE,
                abuf_r@.len() == MAX_BUFFER_SIZE,
                forall|k: int| 0 <= k < MAX_BUFFER_SIZE ==> in_clip(#[trigger] abuf_l@[k] as int),
                forall|k: int| 0 <= k < MAX_BUFFER_SIZE ==> in_clip(#[trigger] abuf_r@[k] as int),
                forall|k: int| n <= k < MAX_BUFFER_SIZE ==> #[trigger] abuf_l@[k] == old(abuf_l)@[k],
                forall|k: int| n <= k < MAX_BUFFER_SIZE ==> #[trigger] abuf_r@[k] == old(abuf_r)@[k],
                mid.len() == MAX_PART_NUM,
                self.msg_buf@.len() == (if old(self).msg_buf@.len() > 0 {
                    old(self).msg_buf@.len() - 1
                } else {
                    0int
                }),
                old(self).msg_buf@.len() > 0 ==> self.msg_buf@
                    == old(self).msg_buf@.subrange(1, old(self).msg_buf@.len() as int),
                forall|k: int| 0 <= k < i ==> part_processed_rel(
                    #[trigger] mid[k], self.part@[k], n as int),
                forall|k: int| i <= k < MAX_PART_NUM ==> self.part@[k] == mid[k],
            decreases self.part@.len() - i,
        {
            let ghost before: Seq<Part> = self.part@;
            let mut p = self.part.remove(i);
            proof {
                assert(p == mid[i as int]);
            }
            p.process(
                &mut self.audio_buffer_l,
                &mut self.audio_buffer_r,
                &mut self.audio_buffer_send_effect_l,
                &mut self.audio_buffer_send_effect_r,
                n);
            self.part.insert(i, p);
            proof {
                assert(self.part@ =~= before.update(i as int, p));
            }
            self.audio_buffer_l.add_to_sysbuf(abuf_l);
            self.audio_buffer_r.add_to_sysbuf(abuf_r);
            self.audio_buffer_total_effect_l.mul_and_mix(&self.audio_buffer_send_effect_l, 32768);
            self.audio_buffer_total_effect_r.mul_and_mix(&self.audio_buffer_send_effect_r, 32768);
            i += 1;
        }
        self.delay.process(
            &self.audio_buffer_total_effect_l,
            &self.audio_buffer_total_effect_r,
            &mut self.audio_buffer_send_effect_l,
            &mut self.audio_buffer_send_effect_r);
        self.audio_buffer_send_effect_l.add_to_sysbuf(abuf_l);
        self.audio_buffer_send_effect_r.add_to_sysbuf(abuf_r);
        proof {
            assert(mid.len() == MAX_PART_NUM);
            assert(forall|k: int| 0 <= k < mid.len() ==> part_processed_rel(
                #[trigger] mid[k], self.part@[k], in_number_frames as int));
        }
    }
}

} // verus!
