//! Equalizer configuration of the output pipeline.
//!
//! The pipeline holds, for each band of the graphic equalizer, its centre
//! frequency and its gain. Gains are IEEE-754 single-precision values carried
//! by their bit patterns: this module decides which bands exist and what each
//! of them is set to, and never computes with the gains themselves.
use vstd::prelude::*;

verus! {

/// Number of bands of the graphic equalizer.
pub const EQ_BAND_COUNT: usize = 16;

/// Centre frequency, in hertz, of equalizer band `i` (`0 <= i < EQ_BAND_COUNT`).
pub open spec fn eq_frequency_spec(i: int) -> u32 {
    if i == 0 { 25 }
    else if i == 1 { 40 }
    else if i == 2 { 63 }
    else if i == 3 { 100 }
    else if i == 4 { 160 }
    else if i == 5 { 250 }
    else if i == 6 { 400 }
    else if i == 7 { 630 }
    else if i == 8 { 1000 }
    else if i == 9 { 1600 }
    else if i == 10 { 2500 }
    else if i == 11 { 4000 }
    else if i == 12 { 6300 }
    else if i == 13 { 10000 }
    else if i == 14 { 16000 }
    else { 20000 }
}

/// Centre frequency, in hertz, of equalizer band `index`.
pub fn eq_frequency(index: usize) -> (hz: u32)
    requires
        index < EQ_BAND_COUNT,
    ensures
        hz == eq_frequency_spec(index as int),
{
    let table: [u32; 16] = [
        25, 40, 63, 100, 160, 250, 400, 630, 1000, 1600, 2500, 4000, 6300, 10000, 16000, 20000,
    ];
    table[index]
}

/// One configured equalizer band: a peaking filter at `frequency_hz` whose
/// gain, in decibels, is the single-precision value with bits `gain_bits`.
#[derive(Clone, Copy, Debug, PartialEq, Eq, Structural)]
pub struct EqBand {
    pub frequency_hz: u32,
    pub gain_bits: u32,
}

/// The bands that a list of gains configures: gain `i` goes to band `i`,
/// and gains beyond the last band are ignored.
pub open spec fn eq_plan(gains: Seq<u32>) -> Seq<EqBand> {
    Seq::new(
        vstd::math::min(gains.len() as int, EQ_BAND_COUNT as int) as nat,
        |i: int| EqBand { frequency_hz: eq_frequency_spec(i), gain_bits: gains[i] },
    )
}

/// Abstract state of a pipeline.
pub struct DspModel {
    pub channels: usize,
    pub sample_rate: u32,
    pub bands: Seq<EqBand>,
}

/// Output processing stage: channel layout, sample rate and equalizer bands.
pub struct DspPipeline {
    channels: usize,
    sample_rate: u32,
    eq_bands: Vec<EqBand>,
}

impl View for DspPipeline {
    type V = DspModel;

    closed spec fn view(&self) -> DspModel {
        DspModel { channels: self.channels, sample_rate: self.sample_rate, bands: self.eq_bands@ }
    }
}

impl DspPipeline {
    /// A pipeline for the given output format, with no equalizer band.
    pub fn new(channels: usize, sample_rate: u32) -> (p: Self)
        ensures
            p@.channels == channels,
            p@.sample_rate == sample_rate,
            p@.bands == Seq::<EqBand>::empty(),
    {
        DspPipeline { channels, sample_rate, eq_bands: Vec::new() }
    }

    /// Replaces every band by those that `gains` configures (see `eq_plan`).
    pub fn set_eq_gains(&mut self, gains: &[u32])
        ensures
            final(self)@.bands == eq_plan(gains@),
            final(self)@.channels == old(self)@.channels,
            final(self)@.sample_rate == old(self)@.sample_rate,
    {
        let mut bands: Vec<EqBand> = Vec::new();
        let mut i: usize = 0;
        while i < gains.len() && i < EQ_BAND_COUNT
            invariant
                i <= gains@.len(),
                i <= EQ_BAND_COUNT,
                bands@ =~= eq_plan(gains@.take(i as int)),
            decreases EQ_BAND_COUNT - i,
        {
            let band = EqBand { frequency_hz: eq_frequency(i), gain_bits: gains[i] };
            bands.push(band);
            i = i + 1;
            assert(bands@ =~= eq_plan(gains@.take(i as int)));
        }
        assert(eq_plan(gains@.take(i as int)) =~= eq_plan(gains@));
        self.eq_bands = bands;
    }

    /// Number of output channels.
    pub fn channels(&self) -> (c: usize)
        ensures
            c == self@.channels,
    {
        self.channels
    }

    /// Output sample rate, in hertz.
    pub fn sample_rate(&self) -> (r: u32)
        ensures
            r == self@.sample_rate,
    {
        self.sample_rate
    }

    /// The configured equalizer bands, lowest frequency first.
    pub fn eq_bands(&self) -> (b: &[EqBand])
        ensures
            b@ == self@.bands,
    {
        self.eq_bands.as_slice()
    }
}

/// One band per gain, up to the number of bands: gain `i` sets band `i`,
/// at that band's frequency, whatever the other gains are.
pub proof fn lemma_eq_one_band_per_gain(gains: Seq<u32>)
    ensures
        gains.len() <= EQ_BAND_COUNT ==> eq_plan(gains).len() == gains.len(),
        gains.len() > EQ_BAND_COUNT ==> eq_plan(gains).len() == EQ_BAND_COUNT,
        forall|i: int|
            0 <= i < gains.len() && i < EQ_BAND_COUNT ==> (#[trigger] eq_plan(gains)[i]).gain_bits
                == gains[i] && eq_plan(gains)[i].frequency_hz == eq_frequency_spec(i),
{
}

/// Configuring from a prefix of the gains gives a prefix of the bands, and
/// changing one gain changes that band's gain and nothing else.
pub proof fn lemma_eq_bands_follow_gains(gains: Seq<u32>, k: int, i: int, g: u32)
    requires
        0 <= k <= gains.len(),
        0 <= i < gains.len(),
    ensures
        eq_plan(gains.take(k)) == eq_plan(gains).take(vstd::math::min(k, EQ_BAND_COUNT as int)),
        i < EQ_BAND_COUNT ==> eq_plan(gains.update(i, g)) == eq_plan(gains).update(
            i,
            EqBand { frequency_hz: eq_frequency_spec(i), gain_bits: g },
        ),
        i >= EQ_BAND_COUNT ==> eq_plan(gains.update(i, g)) == eq_plan(gains),
{
    assert(eq_plan(gains.take(k)) =~= eq_plan(gains).take(vstd::math::min(k, EQ_BAND_COUNT as int)));
    if i < EQ_BAND_COUNT {
        assert(eq_plan(gains.update(i, g)) =~= eq_plan(gains).update(
            i,
            EqBand { frequency_hz: eq_frequency_spec(i), gain_bits: g },
        ));
    } else {
        assert(eq_plan(gains.update(i, g)) =~= eq_plan(gains));
    }
}

/// Setting the gains twice leaves the bands of the second call: nothing of
/// an earlier configuration survives.
pub proof fn lemma_eq_last_setting_wins(p: DspModel, first: Seq<u32>, second: Seq<u32>)
    ensures
        ({
            let once = DspModel { bands: eq_plan(first), ..p };
            let twice = DspModel { bands: eq_plan(second), ..once };
            twice == DspModel { bands: eq_plan(second), ..p }
        }),
{
}

/// Gains beyond the last band have no effect.
pub proof fn lemma_eq_extra_gains_ignored(gains: Seq<u32>)
    ensures
        eq_plan(gains) == eq_plan(gains.take(vstd::math::min(gains.len() as int, EQ_BAND_COUNT as int))),
{
    assert(eq_plan(gains) =~= eq_plan(gains.take(vstd::math::min(gains.len() as int, EQ_BAND_COUNT as int))));
}

/// The configured bands come in strictly increasing order of frequency,
/// and there are never more of them than the equalizer has bands.
pub proof fn lemma_eq_bands_ascending(gains: Seq<u32>)
    ensures
        eq_plan(gains).len() <= EQ_BAND_COUNT,
        forall|i: int, j: int|
            0 <= i < j < eq_plan(gains).len() ==> #[trigger] eq_plan(gains)[i].frequency_hz
                < #[trigger] eq_plan(gains)[j].frequency_hz,
{
    assert forall|i: int, j: int| 0 <= i < j < EQ_BAND_COUNT implies eq_frequency_spec(i)
        < eq_frequency_spec(j) by {}
}

} // verus!
