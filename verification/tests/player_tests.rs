use monochrome_audio::{
    next_fill_level, output_layout, Decoder, EqBand, OutputLayout, PlayerState, UNITY_BITS,
};

/// Stand-in for the media handles of a decoder.
#[derive(Debug, PartialEq)]
struct Media(&'static str);

fn fresh() -> PlayerState<Media> {
    PlayerState::new(2, 48000)
}

#[test]
fn new_player_is_idle_at_unity() {
    let s = fresh();
    assert!(!s.is_playing());
    assert_eq!(s.get_position(), 0);
    assert_eq!(s.get_duration(), 0);
    assert_eq!(s.volume_bits(), 1.0f32.to_bits());
    assert_eq!(s.speed_bits(), 1.0f32.to_bits());
    assert_eq!(UNITY_BITS, 1.0f32.to_bits());
    assert!(s.decoder().is_none());
    assert_eq!(s.dsp().channels(), 2);
    assert_eq!(s.dsp().sample_rate(), 48000);
    assert!(!s.renders_track());
}

#[test]
fn decoder_starts_unfinished() {
    let mut d = Decoder::new(Media("a"), 183_000);
    assert_eq!(d.duration_ms(), 183_000);
    assert!(!d.is_finished());
    assert_eq!(d.media(), &Media("a"));
    *d.media_mut() = Media("b");
    assert_eq!(d.media(), &Media("b"));
    d.note_seek();
    assert!(!d.is_finished());
    assert_eq!(d.duration_ms(), 183_000);
}

#[test]
fn output_layout_is_mono_only_for_one_channel() {
    assert_eq!(output_layout(1), OutputLayout::Mono);
    assert_eq!(output_layout(2), OutputLayout::Stereo);
    assert_eq!(output_layout(6), OutputLayout::Stereo);
    assert_eq!(output_layout(0), OutputLayout::Stereo);
}

#[test]
fn load_rewinds_and_reports_duration() {
    let mut s = fresh();
    s.load(Decoder::new(Media("first"), 90_000));
    s.play();
    s.finish_block(250);
    assert_eq!(s.get_position(), 250);
    s.load(Decoder::new(Media("second"), 120_500));
    assert_eq!(s.get_position(), 0);
    assert_eq!(s.get_duration(), 120_500);
    assert!(s.is_playing());
    assert_eq!(s.decoder().unwrap().media(), &Media("second"));
}

#[test]
fn play_pause_only_toggle_playing() {
    let mut s = fresh();
    s.load(Decoder::new(Media("t"), 10_000));
    s.play();
    assert!(s.is_playing());
    assert!(s.renders_track());
    s.finish_block(40);
    s.pause();
    assert!(!s.is_playing());
    assert!(!s.renders_track());
    assert_eq!(s.get_position(), 40);
    assert_eq!(s.get_duration(), 10_000);
    s.play();
    assert!(s.is_playing());
    assert_eq!(s.get_position(), 40);
}

#[test]
fn playing_without_track_renders_silence() {
    let mut s = fresh();
    s.play();
    assert!(s.is_playing());
    assert!(!s.renders_track());
}

#[test]
fn stop_closes_track_and_keeps_settings() {
    let mut s = fresh();
    s.set_volume(0.25f32.to_bits());
    s.set_speed(1.5f32.to_bits());
    s.set_eq_gains(&[3.0f32.to_bits()]);
    s.load(Decoder::new(Media("t"), 5_000));
    s.play();
    s.finish_block(1_000);
    s.stop();
    assert!(!s.is_playing());
    assert_eq!(s.get_position(), 0);
    assert_eq!(s.get_duration(), 0);
    assert!(s.decoder().is_none());
    assert_eq!(s.volume_bits(), 0.25f32.to_bits());
    assert_eq!(s.speed_bits(), 1.5f32.to_bits());
    assert_eq!(
        s.dsp().eq_bands(),
        &[EqBand { frequency_hz: 25, gain_bits: 3.0f32.to_bits() }][..]
    );
    s.stop();
    assert_eq!(s.get_position(), 0);
    assert!(!s.is_playing());
}

#[test]
fn successful_seek_moves_position() {
    let mut s = fresh();
    s.load(Decoder::new(Media("t"), 60_000));
    s.seek(30_000, true);
    assert_eq!(s.get_position(), 30_000);
    assert!(!s.decoder().unwrap().is_finished());
    assert_eq!(s.get_duration(), 60_000);
}

#[test]
fn failed_seek_changes_nothing() {
    let mut s = fresh();
    s.load(Decoder::new(Media("t"), 60_000));
    s.finish_block(700);
    s.seek(30_000, false);
    assert_eq!(s.get_position(), 700);
}

#[test]
fn seek_without_track_changes_nothing() {
    let mut s = fresh();
    s.seek(30_000, true);
    assert_eq!(s.get_position(), 0);
    assert!(s.decoder().is_none());
}

#[test]
fn blocks_advance_position() {
    let mut s = fresh();
    s.load(Decoder::new(Media("t"), 60_000));
    s.play();
    s.finish_block(10);
    s.finish_block(0);
    s.finish_block(21);
    assert_eq!(s.get_position(), 31);
    assert!(s.is_playing());
}

#[test]
fn settings_do_not_touch_playback() {
    let mut s = fresh();
    s.load(Decoder::new(Media("t"), 60_000));
    s.play();
    s.finish_block(500);
    s.set_volume(0.5f32.to_bits());
    s.set_speed(2.0f32.to_bits());
    s.set_eq_gains(&[1.0f32.to_bits(), 2.0f32.to_bits()]);
    assert_eq!(s.volume_bits(), 0.5f32.to_bits());
    assert_eq!(s.speed_bits(), 2.0f32.to_bits());
    assert_eq!(s.dsp().eq_bands().len(), 2);
    assert_eq!(s.dsp().eq_bands()[1], EqBand { frequency_hz: 40, gain_bits: 2.0f32.to_bits() });
    assert_eq!(s.get_position(), 500);
    assert!(s.is_playing());
    assert_eq!(s.get_duration(), 60_000);
}

#[test]
fn decoder_mut_reaches_media() {
    let mut s = fresh();
    assert!(s.decoder_mut().is_none());
    s.load(Decoder::new(Media("a"), 1_000));
    if let Some(d) = s.decoder_mut() {
        *d.media_mut() = Media("b");
    }
    assert_eq!(s.decoder().unwrap().media(), &Media("b"));
    assert_eq!(s.get_duration(), 1_000);
}

#[test]
fn fill_level_steps() {
    assert_eq!(next_fill_level(0, 1024, Some(256)), Some(256));
    assert_eq!(next_fill_level(256, 1024, Some(768)), Some(1024));
    assert_eq!(next_fill_level(256, 1024, Some(0)), None);
    assert_eq!(next_fill_level(256, 1024, None), None);
}
