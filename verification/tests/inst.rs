//
//  Tests of the two voice-management policies and the pitch math.
//
use msgf::va_inst::InstVa;
use msgf::sgf_inst::InstSgf;
use msgf::msgf_afrm::AudioFrame;
use msgf::msgf_voice::NoteStatus;

#[test]
fn pan_corners_and_centre() {
    assert_eq!(InstVa::calc_pan(0), 0); // full left
    assert_eq!(InstVa::calc_pan(64), 16384); // both sides equal
    assert_eq!(InstVa::calc_pan(127), 32768); // full right
}

#[test]
fn bend_of_plus_4096_is_one_semitone() {
    let mut inst = InstVa::new(0, 100, 64, 127);
    inst.note_on(60, 100);
    inst.pitch(4096, 64, 64); // +100 cents
    // 2^(100/1200) in Q16
    assert_eq!(inst.vcevec[0].osc.cnt_ratio, 69433);
    inst.pitch(0, 64, 64);
    assert_eq!(inst.vcevec[0].osc.cnt_ratio, 65536);
}

fn run_blocks(inst: &mut InstVa, blocks: usize) {
    for _ in 0..blocks {
        let mut l = AudioFrame::new(128, 1024);
        let mut r = AudioFrame::new(128, 1024);
        inst.process(&mut l, &mut r, 128);
    }
}

#[test]
fn released_note_is_removed_after_enough_silence() {
    let mut inst = InstVa::new(0, 100, 64, 127);
    inst.note_on(69, 100);
    assert_eq!(inst.voice_count(), 1);
    inst.note_off(69, 0);
    // two seconds of audio: release tail, damp fade, then removal
    run_blocks(&mut inst, 700);
    assert_eq!(inst.voice_count(), 0);
}

#[test]
fn all_sound_off_retires_three_voices() {
    let mut inst = InstVa::new(1, 100, 64, 127);
    inst.note_on(60, 100);
    inst.note_on(64, 100);
    inst.note_on(67, 100);
    assert_eq!(inst.voice_count(), 3);
    inst.all_sound_off();
    for v in inst.vcevec.iter() {
        assert!(matches!(v.status, NoteStatus::DuringDamp));
    }
    // DAMP_TIME is 300 frames; one removal per block
    run_blocks(&mut inst, 10);
    assert_eq!(inst.voice_count(), 0);
}

#[test]
fn six_overlapping_notes_fade_to_empty() {
    let mut inst = InstVa::new(0, 100, 64, 127);
    let notes = [60u8, 62, 64, 65, 67, 69];
    for (k, n) in notes.iter().enumerate() {
        inst.note_on(*n, 100);
        run_blocks(&mut inst, 35); // about 100 ms
        if k == 0 {
            assert!(inst.voice_count() >= 1);
        }
    }
    for n in notes.iter() {
        inst.note_off(*n, 0);
        run_blocks(&mut inst, 35);
    }
    // two seconds of silence
    run_blocks(&mut inst, 700);
    assert_eq!(inst.voice_count(), 0);
}

fn run_mono_blocks(inst: &mut InstSgf, blocks: usize) {
    for _ in 0..blocks {
        let mut l = AudioFrame::new(128, 1024);
        let mut r = AudioFrame::new(128, 1024);
        inst.process(&mut l, &mut r, 128);
    }
}

#[test]
fn mono_note_on_slides_instead_of_allocating() {
    let mut inst = InstSgf::new(0, 100, 64, 127);
    inst.note_on(60, 100);
    assert!(inst.has_voice());
    assert_eq!(inst.note_stack_len(), 1);
    let (base_at_60, _) = inst.voice_pitch();
    inst.note_on(62, 100);
    // still one voice, two held keys, pitch gliding toward D
    assert!(inst.has_voice());
    assert_eq!(inst.note_stack_len(), 2);
    let (base, target) = inst.voice_pitch();
    assert!(target > base_at_60);
    assert!(base <= target);
    run_mono_blocks(&mut inst, 50);
    let (base_after, target_after) = inst.voice_pitch();
    assert_eq!(target_after, target);
    assert_eq!(base_after, target, "portamento should settle on the target");
    // releasing the sounding key keeps the stack entry for the tail
    inst.note_off(62, 0);
    assert!(inst.has_voice());
    assert_eq!(inst.note_stack_len(), 2);
    assert_eq!(inst.voice_status(), Some(NoteStatus::AfterNoteOff));
}

#[test]
fn vowel_positions_move_the_formants() {
    let mut inst = InstSgf::new(0, 100, 64, 127);
    inst.note_on(60, 100);
    inst.set_prm(2, 64); // vowel x = 0
    inst.set_prm(3, 64); // vowel y = 0: the vowel "a"
    let (f1, f2) = inst.formant_centres();
    assert_eq!((f1, f2), (800, 1200));
    inst.set_prm(3, 127); // toward "u"
    let (f1u, f2u) = inst.formant_centres();
    assert!((295..=320).contains(&f1u), "first formant {} should near 300", f1u);
    assert_eq!(f2u, 1200);
}
