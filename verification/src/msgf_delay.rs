//
//  msgf_delay.rs
//  Musical Sound Generator Framework
//      Delay Class
//
//  Per-voice stereo delay mixed in place, backed by one-second circular
//  buffers per channel.  Each frame reads the ring at the read cursor,
//  attenuates, adds the input, writes the sum back at the write cursor,
//  and advances both cursors.
//
use vstd::prelude::*;

use crate::DAMP_LIMIT_DEPTH;
use crate::msgf_afrm::{AudioFrame, clip_spec};
use crate::msgf_fp::{q15, q15_div, mul64};

verus! {

/// Ring length: one second of audio.
pub const DELAY_RING: usize = 44100;

#[derive(PartialEq, Eq, Structural, Clone, Copy)]
pub struct DelayParameter {
    pub l_time: usize,   //  [frames], below one second
    pub r_time: usize,   //  [frames], below one second
    pub att_ratio: i32,  //  Q15 attenuation
}

pub open spec fn delay_prm_wf(p: DelayParameter) -> bool {
    &&& p.l_time < DELAY_RING
    &&& p.r_time < DELAY_RING
    &&& 0 <= p.att_ratio <= 32768
}

/// One channel of a circular delay line.
pub struct DelayBuf {
    pub dbuf: AudioFrame,
    pub rd_ptr: usize,
    pub wr_ptr: usize,
}

/// The value a mix-style step forms: input plus attenuated ring read,
/// squelched to zero inside the silence window.
pub open spec fn mix_step_crnt(buf: Seq<i32>, rd: int, x: int, att: int) -> int {
    let c = x + q15(buf[rd] * att);
    if -(DAMP_LIMIT_DEPTH as int) < c && c < DAMP_LIMIT_DEPTH as int {
        0
    } else {
        c
    }
}

/// The ring state after a mix-style step: the formed value is written at
/// the write cursor (clipped), and both cursors advance.
pub open spec fn mix_step_state(buf: Seq<i32>, rd: int, wr: int, x: int, att: int)
    -> (Seq<i32>, int, int) {
    (
        buf.update(wr, clip_spec(mix_step_crnt(buf, rd, x, att)) as i32),
        (rd + 1) % (DELAY_RING as int),
        (wr + 1) % (DELAY_RING as int),
    )
}

/// The ring state after the first i inputs of a block.
pub open spec fn mix_iter(buf: Seq<i32>, rd: int, wr: int, xs: Seq<i32>, att: int, i: int)
    -> (Seq<i32>, int, int)
    decreases i,
{
    if i <= 0 {
        (buf, rd, wr)
    } else {
        let (b, r, w) = mix_iter(buf, rd, wr, xs, att, i - 1);
        mix_step_state(b, r, w, xs[i - 1] as int, att)
    }
}

/// The value the mix-style step at position i forms.
pub open spec fn mix_crnt_at(buf: Seq<i32>, rd: int, wr: int, xs: Seq<i32>, att: int, i: int) -> int {
    let (b, r, w) = mix_iter(buf, rd, wr, xs, att, i);
    mix_step_crnt(b, r, xs[i] as int, att)
}

/// A ring as the constructor leaves it: zeroed, read cursor at zero and
/// write cursor at the delay length.
pub open spec fn ring_fresh(b: DelayBuf, wr: int) -> bool {
    &&& b.rd_ptr == 0
    &&& b.wr_ptr == wr
    &&& forall|k: int| 0 <= k < DELAY_RING ==> b.dbuf.samples()[k] == 0i32
}

/// A stereo delay as the constructor leaves it.
pub open spec fn delay_fresh(d: Delay, p: DelayParameter) -> bool {
    &&& d.prms == p
    &&& ring_fresh(d.buf_l, p.l_time as int)
    &&& ring_fresh(d.buf_r, p.r_time as int)
}

impl DelayBuf {
    pub open spec fn wf(self) -> bool {
        &&& self.dbuf.wf()
        &&& self.dbuf.samples().len() == DELAY_RING
        &&& self.dbuf.sample_number == DELAY_RING
        &&& self.rd_ptr < DELAY_RING
        &&& self.wr_ptr < DELAY_RING
    }

    pub fn new(wr: usize) -> (r: DelayBuf)
        requires
            wr < DELAY_RING,
        ensures
            r.wf(),
            r.rd_ptr == 0,
            r.wr_ptr == wr,
            forall|k: int| 0 <= k < DELAY_RING ==> r.dbuf.samples()[k] == 0i32,
    {
        DelayBuf { dbuf: AudioFrame::new(DELAY_RING, DELAY_RING), rd_ptr: 0, wr_ptr: wr }
    }

    /// One mix-style step.
    pub fn step_mix(&mut self, x: i32, att: i32) -> (crnt: i32)
        requires
            old(self).wf(),
            -32440 <= x <= 32440,
            0 <= att <= 32768,
        ensures
            final(self).wf(),
            crnt as int == mix_step_crnt(old(self).dbuf.samples(), old(self).rd_ptr as int,
                x as int, att as int),
            -64880 <= crnt <= 64880,
            (final(self).dbuf.samples(), final(self).rd_ptr as int, final(self).wr_ptr as int)
                == mix_step_state(old(self).dbuf.samples(), old(self).rd_ptr as int,
                    old(self).wr_ptr as int, x as int, att as int),
    {
        let out = match self.dbuf.get_from_abuf(self.rd_ptr) {
            Some(v) => v,
            None => 0,
        };
        proof {
            assert(crate::msgf_afrm::in_clip(self.dbuf.samples()[self.rd_ptr as int] as int));
            crate::msgf_fp::lemma_tdiv_scale_le(out as int, att as int, 32768);
        }
        let wet = q15_div(mul64(out as i64, att as i64)) as i32;
        let mut crnt = x + wet;
        if -DAMP_LIMIT_DEPTH < crnt && crnt < DAMP_LIMIT_DEPTH {
            crnt = 0;
        }
        self.dbuf.set_abuf(self.wr_ptr, crnt);
        self.rd_ptr = (self.rd_ptr + 1) % DELAY_RING;
        self.wr_ptr = (self.wr_ptr + 1) % DELAY_RING;
        crnt
    }

    /// One send-style step: the attenuated ring read is the output, and
    /// input plus output is written back.
    pub fn step_send(&mut self, x: i32, att: i32) -> (out: i32)
        requires
            old(self).wf(),
            -32440 <= x <= 32440,
            0 <= att <= 32768,
        ensures
            final(self).wf(),
            out as int == send_step_out(old(self).dbuf.samples(), old(self).rd_ptr as int, att as int),
            -32440 <= out <= 32440,
            (final(self).dbuf.samples(), final(self).rd_ptr as int, final(self).wr_ptr as int)
                == send_step_state(old(self).dbuf.samples(), old(self).rd_ptr as int,
                    old(self).wr_ptr as int, x as int, att as int),
    {
        let rd = match self.dbuf.get_from_abuf(self.rd_ptr) {
            Some(v) => v,
            None => 0,
        };
        proof {
            assert(crate::msgf_afrm::in_clip(self.dbuf.samples()[self.rd_ptr as int] as int));
            crate::msgf_fp::lemma_tdiv_scale_le(rd as int, att as int, 32768);
        }
        let out = q15_div(mul64(rd as i64, att as i64)) as i32;
        self.dbuf.set_abuf(self.wr_ptr, x + out);
        self.rd_ptr = (self.rd_ptr + 1) % DELAY_RING;
        self.wr_ptr = (self.wr_ptr + 1) % DELAY_RING;
        out
    }
}

/// The output of a send-style step: the ring read, attenuated.
pub open spec fn send_step_out(buf: Seq<i32>, rd: int, att: int) -> int {
    q15(buf[rd] * att)
}

/// The ring state after a send-style step.
pub open spec fn send_step_state(buf: Seq<i32>, rd: int, wr: int, x: int, att: int) -> (Seq<i32>, int, int) {
    (
        buf.update(wr, clip_spec(x + send_step_out(buf, rd, att)) as i32),
        (rd + 1) % (DELAY_RING as int),
        (wr + 1) % (DELAY_RING as int),
    )
}

/// The ring state after the first i inputs of a send-style block.
pub open spec fn send_iter(buf: Seq<i32>, rd: int, wr: int, xs: Seq<i32>, att: int, i: int)
    -> (Seq<i32>, int, int)
    decreases i,
{
    if i <= 0 {
        (buf, rd, wr)
    } else {
        let (b, r, w) = send_iter(buf, rd, wr, xs, att, i - 1);
        send_step_state(b, r, w, xs[i - 1] as int, att)
    }
}

/// The output of the send-style step at position i.
pub open spec fn send_out_at(buf: Seq<i32>, rd: int, wr: int, xs: Seq<i32>, att: int, i: int) -> int {
    let (b, r, w) = send_iter(buf, rd, wr, xs, att, i);
    send_step_out(b, r, att)
}

/// The per-voice stereo delay.
pub struct Delay {
    pub prms: DelayParameter,
    pub buf_l: DelayBuf,
    pub buf_r: DelayBuf,
}

impl Delay {
    pub open spec fn wf(self) -> bool {
        &&& delay_prm_wf(self.prms)
        &&& self.buf_l.wf()
        &&& self.buf_r.wf()
    }

    pub fn new(prms: DelayParameter) -> (r: Delay)
        requires
            delay_prm_wf(prms),
        ensures
            r.wf(),
            delay_fresh(r, prms),
    {
        Delay {
            prms,
            buf_l: DelayBuf::new(prms.l_time),
            buf_r: DelayBuf::new(prms.r_time),
        }
    }

    /// Mix the delay into a stereo pair in place: frame i of each channel
    /// gains the value its ring step forms, clipped on write.
    pub fn process(&mut self, abuf_l: &mut AudioFrame, abuf_r: &mut AudioFrame)
        requires
            old(self).wf(),
            old(abuf_l).wf(),
            old(abuf_r).wf(),
            old(abuf_r).sample_number == old(abuf_l).sample_number,
        ensures
            final(self).wf(),
            final(self).prms == old(self).prms,
            final(abuf_l).wf(),
            final(abuf_r).wf(),
            final(abuf_l).capacity() == old(abuf_l).capacity(),
            final(abuf_r).capacity() == old(abuf_r).capacity(),
            final(abuf_l).sample_number == old(abuf_l).sample_number,
            final(abuf_r).sample_number == old(abuf_r).sample_number,
            (final(self).buf_l.dbuf.samples(), final(self).buf_l.rd_ptr as int, final(self).buf_l.wr_ptr as int)
                == mix_iter(old(self).buf_l.dbuf.samples(), old(self).buf_l.rd_ptr as int,
                    old(self).buf_l.wr_ptr as int, old(abuf_l).samples(),
                    old(self).prms.att_ratio as int, old(abuf_l).sample_number as int),
            (final(self).buf_r.dbuf.samples(), final(self).buf_r.rd_ptr as int, final(self).buf_r.wr_ptr as int)
                == mix_iter(old(self).buf_r.dbuf.samples(), old(self).buf_r.rd_ptr as int,
                    old(self).buf_r.wr_ptr as int, old(abuf_r).samples(),
                    old(self).prms.att_ratio as int, old(abuf_r).sample_number as int),
            forall|i: int| 0 <= i < old(abuf_l).sample_number
                ==> final(abuf_l).samples()[i] as int == clip_spec(old(abuf_l).samples()[i]
                    + mix_crnt_at(old(self).buf_l.dbuf.samples(), old(self).buf_l.rd_ptr as int,
                        old(self).buf_l.wr_ptr as int, old(abuf_l).samples(),
                        old(self).prms.att_ratio as int, i)),
            forall|i: int| 0 <= i < old(abuf_r).sample_number
                ==> final(abuf_r).samples()[i] as int == clip_spec(old(abuf_r).samples()[i]
                    + mix_crnt_at(old(self).buf_r.dbuf.samples(), old(self).buf_r.rd_ptr as int,
                        old(self).buf_r.wr_ptr as int, old(abuf_r).samples(),
                        old(self).prms.att_ratio as int, i)),
    {
        let att = self.prms.att_ratio;
        Delay::process_channel(&mut self.buf_l, abuf_l, att);
        Delay::process_channel(&mut self.buf_r, abuf_r, att);
    }

    fn process_channel(ring: &mut DelayBuf, abuf: &mut AudioFrame, att: i32)
        requires
            old(ring).wf(),
            old(abuf).wf(),
            0 <= att <= 32768,
        ensures
            final(ring).wf(),
            final(abuf).wf(),
            final(abuf).capacity() == old(abuf).capacity(),
            final(abuf).sample_number == old(abuf).sample_number,
            (final(ring).dbuf.samples(), final(ring).rd_ptr as int, final(ring).wr_ptr as int)
                == mix_iter(old(ring).dbuf.samples(), old(ring).rd_ptr as int,
                    old(ring).wr_ptr as int, old(abuf).samples(), att as int,
                    old(abuf).sample_number as int),
            forall|i: int| 0 <= i < old(abuf).sample_number
                ==> final(abuf).samples()[i] as int == clip_spec(old(abuf).samples()[i]
                    + mix_crnt_at(old(ring).dbuf.samples(), old(ring).rd_ptr as int,
                        old(ring).wr_ptr as int, old(abuf).samples(), att as int, i)),
            forall|i: int| old(abuf).sample_number <= i < old(abuf).capacity()
                ==> final(abuf).samples()[i] == old(abuf).samples()[i],
    {
        let ghost b0: Seq<i32> = ring.dbuf.samples();
        let ghost r0: int = ring.rd_ptr as int;
        let ghost w0: int = ring.wr_ptr as int;
        let ghost xs: Seq<i32> = abuf.samples();
        let mut i: usize = 0;
        while i < abuf.sample_number
            invariant
                i <= abuf.sample_number,
                ring.wf(),
                abuf.wf(),
                0 <= att <= 32768,
                abuf.capacity() == old(abuf).capacity(),
                abuf.sample_number == old(abuf).sample_number,
                xs == old(abuf).samples(),
                b0 == old(ring).dbuf.samples(),
                r0 == old(ring).rd_ptr as int,
                w0 == old(ring).wr_ptr as int,
                (ring.dbuf.samples(), ring.rd_ptr as int, ring.wr_ptr as int)
                    == mix_iter(b0, r0, w0, xs, att as int, i as int),
                forall|k: int| 0 <= k < i
                    ==> abuf.samples()[k] as int
                        == clip_spec(xs[k] + mix_crnt_at(b0, r0, w0, xs, att as int, k)),
                forall|k: int| i <= k < old(abuf).capacity()
                    ==> abuf.samples()[k] == old(abuf).samples()[k],
            decreases abuf.sample_number - i,
        {
            match abuf.get_from_abuf(i) {
                Some(x) => {
                    proof {
                        assert(abuf.samples()[i as int] == xs[i as int]);
                        assert(crate::msgf_afrm::in_clip(xs[i as int] as int));
                    }
                    let ghost pb: Seq<i32> = ring.dbuf.samples();
                    let ghost pr: int = ring.rd_ptr as int;
                    let ghost pw: int = ring.wr_ptr as int;
                    let crnt = ring.step_mix(x, att);
                    abuf.add_to_abuf(i, crnt);
                    proof {
                        assert(mix_iter(b0, r0, w0, xs, att as int, i + 1)
                            == mix_step_state(pb, pr, pw, xs[i as int] as int, att as int));
                        assert(crnt as int == mix_crnt_at(b0, r0, w0, xs, att as int, i as int));
                    }
                }
                None => {}
            }
            i += 1;
        }
    }
}

} // verus!
