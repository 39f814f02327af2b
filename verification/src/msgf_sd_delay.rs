//
//  msgf_sd_delay.rs
//  Musical Sound Generator Framework
//      Send Delay Class
//      ( Send means:
//          no dry,
//          includes all parts )
//
//  The global effect delay: it reads the send bus, returns only the
//  delayed, attenuated signal, and keeps feeding the ring with input
//  plus feedback.
//
use vstd::prelude::*;

use crate::msgf_afrm::{AudioFrame, clip_spec};
use crate::msgf_delay::{DelayBuf, DelayParameter, delay_prm_wf, send_iter, send_out_at};

verus! {

/// A send delay as the constructor leaves it.
pub open spec fn sd_delay_fresh(d: SdDelay, p: DelayParameter) -> bool {
    &&& d.att_ratio == p.att_ratio
    &&& crate::msgf_delay::ring_fresh(d.dbuf_l, p.l_time as int)
    &&& crate::msgf_delay::ring_fresh(d.dbuf_r, p.r_time as int)
}

pub struct SdDelay {
    pub att_ratio: i32,  //  Q15
    pub dbuf_l: DelayBuf,
    pub dbuf_r: DelayBuf,
}

impl SdDelay {
    pub open spec fn wf(self) -> bool {
        &&& 0 <= self.att_ratio <= 32768
        &&& self.dbuf_l.wf()
        &&& self.dbuf_r.wf()
    }

    pub fn new(ref_prms: &DelayParameter) -> (r: SdDelay)
        requires
            delay_prm_wf(*ref_prms),
        ensures
            r.wf(),
            sd_delay_fresh(r, *ref_prms),
    {
        SdDelay {
            att_ratio: ref_prms.att_ratio,
            dbuf_l: DelayBuf::new(ref_prms.l_time),
            dbuf_r: DelayBuf::new(ref_prms.r_time),
        }
    }

    /// Run the send bus through the delay: output frame i of each
    /// channel is the attenuated ring read of its step, dry-free.
    pub fn process(&mut self, in_l: &AudioFrame, in_r: &AudioFrame,
        out_l: &mut AudioFrame, out_r: &mut AudioFrame)
        requires
            old(self).wf(),
            in_l.wf(),
            in_r.wf(),
            old(out_l).wf(),
            old(out_r).wf(),
            in_r.sample_number == in_l.sample_number,
            old(out_l).sample_number == in_l.sample_number,
            old(out_r).sample_number == in_l.sample_number,
        ensures
            final(self).wf(),
            final(self).att_ratio == old(self).att_ratio,
            final(out_l).wf(),
            final(out_r).wf(),
            final(out_l).capacity() == old(out_l).capacity(),
            final(out_r).capacity() == old(out_r).capacity(),
            final(out_l).sample_number == old(out_l).sample_number,
            final(out_r).sample_number == old(out_r).sample_number,
            (final(self).dbuf_l.dbuf.samples(), final(self).dbuf_l.rd_ptr as int, final(self).dbuf_l.wr_ptr as int)
                == send_iter(old(self).dbuf_l.dbuf.samples(), old(self).dbuf_l.rd_ptr as int,
                    old(self).dbuf_l.wr_ptr as int, in_l.samples(), old(self).att_ratio as int,
                    in_l.sample_number as int),
            (final(self).dbuf_r.dbuf.samples(), final(self).dbuf_r.rd_ptr as int, final(self).dbuf_r.wr_ptr as int)
                == send_iter(old(self).dbuf_r.dbuf.samples(), old(self).dbuf_r.rd_ptr as int,
                    old(self).dbuf_r.wr_ptr as int, in_r.samples(), old(self).att_ratio as int,
                    in_r.sample_number as int),
            forall|i: int| 0 <= i < in_l.sample_number
                ==> final(out_l).samples()[i] as int == clip_spec(send_out_at(
                        old(self).dbuf_l.dbuf.samples(), old(self).dbuf_l.rd_ptr as int,
                        old(self).dbuf_l.wr_ptr as int, in_l.samples(),
                        old(self).att_ratio as int, i)),
            forall|i: int| 0 <= i < in_r.sample_number
                ==> final(out_r).samples()[i] as int == clip_spec(send_out_at(
                        old(self).dbuf_r.dbuf.samples(), old(self).dbuf_r.rd_ptr as int,
                        old(self).dbuf_r.wr_ptr as int, in_r.samples(),
                        old(self).att_ratio as int, i)),
    {
        let att = self.att_ratio;
        SdDelay::process_channel(&mut self.dbuf_l, in_l, out_l, att);
        SdDelay::process_channel(&mut self.dbuf_r, in_r, out_r, att);
    }

    fn process_channel(ring: &mut DelayBuf, inb: &AudioFrame, outb: &mut AudioFrame, att: i32)
        requires
            old(ring).wf(),
            inb.wf(),
            old(outb).wf(),
            old(outb).sample_number == inb.sample_number,
            0 <= att <= 32768,
        ensures
            final(ring).wf(),
            final(outb).wf(),
            final(outb).capacity() == old(outb).capacity(),
            final(outb).sample_number == old(outb).sample_number,
            (final(ring).dbuf.samples(), final(ring).rd_ptr as int, final(ring).wr_ptr as int)
                == send_iter(old(ring).dbuf.samples(), old(ring).rd_ptr as int,
                    old(ring).wr_ptr as int, inb.samples(), att as int, inb.sample_number as int),
            forall|i: int| 0 <= i < inb.sample_number
                ==> final(outb).samples()[i] as int == clip_spec(send_out_at(
                        old(ring).dbuf.samples(), old(ring).rd_ptr as int,
                        old(ring).wr_ptr as int, inb.samples(), att as int, i)),
    {
        let ghost b0: Seq<i32> = ring.dbuf.samples();
        let ghost r0: int = ring.rd_ptr as int;
        let ghost w0: int = ring.wr_ptr as int;
        let ghost xs: Seq<i32> = inb.samples();
        let mut i: usize = 0;
        while i < inb.sample_number
            invariant
                i <= inb.sample_number,
                ring.wf(),
                inb.wf(),
                outb.wf(),
                0 <= att <= 32768,
                outb.capacity() == old(outb).capacity(),
                outb.sample_number == old(outb).sample_number,
                outb.sample_number == inb.sample_number,
                xs == inb.samples(),
                b0 == old(ring).dbuf.samples(),
                r0 == old(ring).rd_ptr as int,
                w0 == old(ring).wr_ptr as int,
                (ring.dbuf.samples(), ring.rd_ptr as int, ring.wr_ptr as int)
                    == send_iter(b0, r0, w0, xs, att as int, i as int),
                forall|k: int| 0 <= k < i
                    ==> outb.samples()[k] as int
                        == clip_spec(send_out_at(b0, r0, w0, xs, att as int, k)),
            decreases inb.sample_number - i,
        {
            match inb.get_from_abuf(i) {
                Some(x) => {
                    proof {
                        assert(inb.samples()[i as int] == xs[i as int]);
                        assert(crate::msgf_afrm::in_clip(xs[i as int] as int));
                    }
                    let ghost pb: Seq<i32> = ring.dbuf.samples();
                    let ghost pr: int = ring.rd_ptr as int;
                    let ghost pw: int = ring.wr_ptr as int;
                    let out = ring.step_send(x, att);
                    outb.set_abuf(i, out);
                    proof {
                        assert(send_iter(b0, r0, w0, xs, att as int, i + 1)
                            == crate::msgf_delay::send_step_state(pb, pr, pw, xs[i as int] as int, att as int));
                        assert(out as int == send_out_at(b0, r0, w0, xs, att as int, i as int));
                    }
                }
                None => {}
            }
            i += 1;
        }
    }
}

} // verus!
