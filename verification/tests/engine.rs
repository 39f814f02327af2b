//
//  Tests of the whole engine: MIDI in, Q15 audio out.
//
use msgf::msgf_if::Msgf;
use msgf::CLIP_LEVEL;

fn render_block(m: &mut Msgf, l: &mut Vec<i32>, r: &mut Vec<i32>, n: u32) {
    m.process(l, r, n);
}

#[test]
fn note_on_produces_sound_within_clip() {
    let mut m = Msgf::new();
    m.init();
    m.recieve_midi_message(0x90, 69, 100);
    let mut l = vec![0i32; 1024];
    let mut r = vec![0i32; 1024];
    let mut heard = false;
    for _ in 0..10 {
        render_block(&mut m, &mut l, &mut r, 128);
        for k in 0..128 {
            assert!(l[k].abs() <= CLIP_LEVEL, "sample beyond clip window");
            assert!(r[k].abs() <= CLIP_LEVEL, "sample beyond clip window");
            if l[k].abs() > 300 {
                heard = true;
            }
        }
    }
    assert!(heard, "ten blocks of a note-on stayed silent");
}

#[test]
fn silent_engine_stays_silent() {
    let mut m = Msgf::new();
    m.init();
    let mut l = vec![0i32; 1024];
    let mut r = vec![0i32; 1024];
    render_block(&mut m, &mut l, &mut r, 256);
    assert!(l.iter().all(|&v| v == 0));
    assert!(r.iter().all(|&v| v == 0));
}

#[test]
fn out_of_range_channel_is_dropped() {
    let mut m = Msgf::new();
    m.init();
    m.recieve_midi_message(0x9a, 69, 100); // channel 10 >= MAX_PART_NUM
    assert_eq!(m.msg_buf.len(), 0);
    m.recieve_midi_message(0x93, 69, 100); // channel 3 is fine
    assert_eq!(m.msg_buf.len(), 1);
}

#[test]
fn bend_raises_zero_crossing_rate_by_a_semitone() {
    // A note a semitone up crosses zero about 2^(1/12) times as often.
    let zc = |bend: bool| -> u32 {
        let mut m = Msgf::new();
        m.init();
        m.recieve_midi_message(0x90, 60, 127);
        if bend {
            m.recieve_midi_message(0xe0, 0x00, 0x60); // +4096 = +100 cents
        }
        let mut l = vec![0i32; 1024];
        let mut r = vec![0i32; 1024];
        // drain events (one per block), let the attack settle
        for _ in 0..20 {
            render_block(&mut m, &mut l, &mut r, 128);
        }
        let mut count = 0u32;
        for _ in 0..40 {
            render_block(&mut m, &mut l, &mut r, 128);
            for k in 1..128 {
                if (l[k - 1] < 0 && l[k] >= 0) || (l[k - 1] >= 0 && l[k] < 0) {
                    count += 1;
                }
            }
        }
        count
    };
    let plain = zc(false) as f64;
    let bent = zc(true) as f64;
    let ratio = bent / plain;
    let semitone = 2f64.powf(1.0 / 12.0);
    assert!(
        (ratio / semitone - 1.0).abs() < 0.01,
        "zero-crossing ratio {} not within 1% of a semitone {}",
        ratio,
        semitone
    );
}

#[test]
fn singing_program_is_audible() {
    let mut m = Msgf::new();
    m.init();
    m.recieve_midi_message(0xc0, 9, 0); // a singing program
    m.recieve_midi_message(0x90, 60, 100);
    let mut l = vec![0i32; 1024];
    let mut r = vec![0i32; 1024];
    let mut peak = 0i32;
    for _ in 0..40 {
        render_block(&mut m, &mut l, &mut r, 128);
        for k in 0..128 {
            assert!(l[k].abs() <= CLIP_LEVEL);
            peak = peak.max(l[k].abs());
        }
    }
    assert!(peak > 100, "singing voice stayed inaudible, peak {}", peak);
}

#[test]
fn singing_volume_has_the_hot_trim() {
    // the singing trim is 2.0: full volume and expression come to about
    // 1.97 in Q15
    assert_eq!(msgf::sgf_voice::VoiceSgf::calc_vol(127, 127), 64516);
    assert_eq!(msgf::sgf_voice::VoiceSgf::calc_vol(100, 127), 50800);
    assert_eq!(msgf::sgf_voice::VoiceSgf::calc_vol(0, 127), 0);
}
