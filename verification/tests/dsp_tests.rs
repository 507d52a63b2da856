use monochrome_audio::{eq_frequency, DspPipeline, EqBand, EQ_BAND_COUNT};

fn bits(gains: &[f32]) -> Vec<u32> {
    gains.iter().map(|g| g.to_bits()).collect()
}

#[test]
fn new_pipeline_has_no_band() {
    let p = DspPipeline::new(2, 48000);
    assert_eq!(p.channels(), 2);
    assert_eq!(p.sample_rate(), 48000);
    assert!(p.eq_bands().is_empty());
}

#[test]
fn frequency_table_matches_graphic_eq() {
    let expected = [
        25, 40, 63, 100, 160, 250, 400, 630, 1000, 1600, 2500, 4000, 6300, 10000, 16000, 20000,
    ];
    assert_eq!(EQ_BAND_COUNT, 16);
    for (i, hz) in expected.iter().enumerate() {
        assert_eq!(eq_frequency(i), *hz);
    }
}

#[test]
fn fewer_gains_than_bands_configure_leading_bands() {
    let mut p = DspPipeline::new(2, 44100);
    let gains = bits(&[3.0, -6.5, 0.0]);
    p.set_eq_gains(&gains);
    assert_eq!(
        p.eq_bands(),
        &[
            EqBand { frequency_hz: 25, gain_bits: 3.0f32.to_bits() },
            EqBand { frequency_hz: 40, gain_bits: (-6.5f32).to_bits() },
            EqBand { frequency_hz: 63, gain_bits: 0.0f32.to_bits() },
        ][..]
    );
    assert_eq!(p.channels(), 2);
    assert_eq!(p.sample_rate(), 44100);
}

#[test]
fn extra_gains_are_ignored() {
    let mut p = DspPipeline::new(1, 48000);
    let gains: Vec<u32> = (0..20).map(|i| (i as f32).to_bits()).collect();
    p.set_eq_gains(&gains);
    let bands = p.eq_bands();
    assert_eq!(bands.len(), 16);
    assert_eq!(bands[15], EqBand { frequency_hz: 20000, gain_bits: 15.0f32.to_bits() });
    let mut q = DspPipeline::new(1, 48000);
    q.set_eq_gains(&gains[..16]);
    assert_eq!(p.eq_bands(), q.eq_bands());
}

#[test]
fn new_gains_replace_old_bands() {
    let mut p = DspPipeline::new(2, 48000);
    p.set_eq_gains(&bits(&[1.0; 16]));
    p.set_eq_gains(&bits(&[2.0, 4.0]));
    assert_eq!(
        p.eq_bands(),
        &[
            EqBand { frequency_hz: 25, gain_bits: 2.0f32.to_bits() },
            EqBand { frequency_hz: 40, gain_bits: 4.0f32.to_bits() },
        ][..]
    );
    p.set_eq_gains(&[]);
    assert!(p.eq_bands().is_empty());
}

#[test]
fn bands_ascend_in_frequency() {
    let mut p = DspPipeline::new(2, 48000);
    p.set_eq_gains(&bits(&[0.5; 16]));
    let bands = p.eq_bands();
    for w in bands.windows(2) {
        assert!(w[0].frequency_hz < w[1].frequency_hz);
    }
}
