//! Playback state shared by the control interface and the audio callback.
//!
//! `PlayerState` decides what every control request does to the state of
//! playback: which track is loaded, whether it plays, where it stands, and
//! the output settings (volume, speed and equalizer, carried as the bit
//! patterns of their single-precision values). The audio callback asks it
//! whether a block is to be decoded and reports back how far the block took
//! the track.
use vstd::prelude::*;
use crate::decoder::{Decoder, TrackStatus};
use crate::dsp::{eq_plan, DspModel, DspPipeline, EqBand};

verus! {

/// Bit pattern of the single-precision value `1.0`: unity volume and normal speed.
pub const UNITY_BITS: u32 = 0x3f80_0000;

/// Abstract state of playback.
pub struct PlayerModel {
    pub track: Option<TrackStatus>,
    pub dsp: DspModel,
    pub volume_bits: u32,
    pub speed_bits: u32,
    pub playing: bool,
    pub position_ms: i64,
}

impl PlayerModel {
    /// The state that every reachable state satisfies: with no track
    /// loaded, the position is at its start.
    pub open spec fn consistent(self) -> bool {
        self.track is None ==> self.position_ms == 0
    }

    /// Duration reported for the loaded track, 0 when there is none.
    pub open spec fn duration_ms(self) -> i64 {
        match self.track {
            Some(t) => t.duration_ms,
            None => 0,
        }
    }

    /// The state of a fresh player for the given output format.
    pub open spec fn initial(channels: usize, sample_rate: u32) -> PlayerModel {
        PlayerModel {
            track: None,
            dsp: DspModel { channels, sample_rate, bands: Seq::empty() },
            volume_bits: UNITY_BITS,
            speed_bits: UNITY_BITS,
            playing: false,
            position_ms: 0,
        }
    }

    /// A new track is loaded and playback goes back to its start.
    pub open spec fn loaded(self, track: TrackStatus) -> PlayerModel {
        PlayerModel { track: Some(track), position_ms: 0, ..self }
    }

    pub open spec fn played(self) -> PlayerModel {
        PlayerModel { playing: true, ..self }
    }

    pub open spec fn paused(self) -> PlayerModel {
        PlayerModel { playing: false, ..self }
    }

    /// Playback ends and the track is closed.
    pub open spec fn stopped(self) -> PlayerModel {
        PlayerModel { playing: false, track: None, position_ms: 0, ..self }
    }

    /// A seek to `pos_ms`: it takes effect only where a track is loaded and
    /// the decoder could reposition its stream (`decoder_seeked`).
    pub open spec fn seeked(self, pos_ms: i64, decoder_seeked: bool) -> PlayerModel {
        match self.track {
            Some(t) => if decoder_seeked {
                PlayerModel {
                    track: Some(TrackStatus { finished: false, ..t }),
                    position_ms: pos_ms,
                    ..self
                }
            } else {
                self
            },
            None => self,
        }
    }

    /// A block of `elapsed_ms` milliseconds of the track was rendered;
    /// playback ends when the decoder reached the end of the track.
    pub open spec fn after_block(self, elapsed_ms: i64) -> PlayerModel
        recommends
            self.track is Some,
    {
        PlayerModel {
            position_ms: (self.position_ms + elapsed_ms) as i64,
            playing: self.playing && !self.track.unwrap().finished,
            ..self
        }
    }

    pub open spec fn with_volume(self, volume_bits: u32) -> PlayerModel {
        PlayerModel { volume_bits, ..self }
    }

    pub open spec fn with_speed(self, speed_bits: u32) -> PlayerModel {
        PlayerModel { speed_bits, ..self }
    }

    pub open spec fn with_eq_gains(self, gains: Seq<u32>) -> PlayerModel {
        PlayerModel { dsp: DspModel { bands: eq_plan(gains), ..self.dsp }, ..self }
    }

    /// Whether the next block is decoded from the track (otherwise it is silence).
    pub open spec fn renders_track(self) -> bool {
        self.playing && self.track is Some
    }
}

/// State of playback, over decoders whose media handles have type `M`.
pub struct PlayerState<M> {
    decoder: Option<Decoder<M>>,
    dsp: DspPipeline,
    volume_bits: u32,
    speed_bits: u32,
    playing: bool,
    position_ms: i64,
}

impl<M> View for PlayerState<M> {
    type V = PlayerModel;

    closed spec fn view(&self) -> PlayerModel {
        PlayerModel {
            track: match self.decoder {
                Some(d) => Some(d@),
                None => None,
            },
            dsp: self.dsp@,
            volume_bits: self.volume_bits,
            speed_bits: self.speed_bits,
            playing: self.playing,
            position_ms: self.position_ms,
        }
    }
}

impl<M> PlayerState<M> {
    /// The media handles of the loaded track.
    pub closed spec fn media_spec(&self) -> Option<M> {
        match self.decoder {
            Some(d) => Some(d.media_spec()),
            None => None,
        }
    }

    pub open spec fn wf(&self) -> bool {
        self@.consistent()
    }

    /// A player for an output device with `channels` channels at
    /// `sample_rate` hertz: nothing loaded, not playing, unity volume and speed.
    pub fn new(channels: usize, sample_rate: u32) -> (s: Self)
        ensures
            s.wf(),
            s@ == PlayerModel::initial(channels, sample_rate),
    {
        let s = PlayerState {
            decoder: None,
            dsp: DspPipeline::new(channels, sample_rate),
            volume_bits: UNITY_BITS,
            speed_bits: UNITY_BITS,
            playing: false,
            position_ms: 0,
        };
        assert(s@.dsp.bands =~= Seq::<EqBand>::empty());
        s
    }

    /// Makes `decoder` the loaded track, at its start; whether it plays is unchanged.
    pub fn load(&mut self, decoder: Decoder<M>)
        requires
            old(self).wf(),
        ensures
            final(self).wf(),
            final(self)@ == old(self)@.loaded(decoder@),
            final(self).media_spec() == Some(decoder.media_spec()),
    {
        self.decoder = Some(decoder);
        self.position_ms = 0;
    }

    pub fn play(&mut self)
        requires
            old(self).wf(),
        ensures
            final(self).wf(),
            final(self)@ == old(self)@.played(),
            final(self).media_spec() == old(self).media_spec(),
    {
        self.playing = true;
    }

    pub fn pause(&mut self)
        requires
            old(self).wf(),
        ensures
            final(self).wf(),
            final(self)@ == old(self)@.paused(),
            final(self).media_spec() == old(self).media_spec(),
    {
        self.playing = false;
    }

    /// Stops playback and closes the track.
    pub fn stop(&mut self)
        requires
            old(self).wf(),
        ensures
            final(self).wf(),
            final(self)@ == old(self)@.stopped(),
            final(self).media_spec() is None,
    {
        self.playing = false;
        self.decoder = None;
        self.position_ms = 0;
    }

    /// Applies a seek to `pos_ms`, once the decoder's stream was asked to
    /// reposition, with `decoder_seeked` its success (see `PlayerModel::seeked`).
    pub fn seek(&mut self, pos_ms: i64, decoder_seeked: bool)
        requires
            old(self).wf(),
        ensures
            final(self).wf(),
            final(self)@ == old(self)@.seeked(pos_ms, decoder_seeked),
            final(self).media_spec() == old(self).media_spec(),
    {
        if decoder_seeked {
            match self.decoder.as_mut() {
                Some(d) => {
                    d.note_seek();
                    self.position_ms = pos_ms;
                },
                None => {},
            }
        }
    }

    pub fn set_volume(&mut self, volume_bits: u32)
        requires
            old(self).wf(),
        ensures
            final(self).wf(),
            final(self)@ == old(self)@.with_volume(volume_bits),
            final(self).media_spec() == old(self).media_spec(),
    {
        self.volume_bits = volume_bits;
    }

    /// Sets the playback speed; the caller passes it on to the loaded decoder.
    pub fn set_speed(&mut self, speed_bits: u32)
        requires
            old(self).wf(),
        ensures
            final(self).wf(),
            final(self)@ == old(self)@.with_speed(speed_bits),
            final(self).media_spec() == old(self).media_spec(),
    {
        self.speed_bits = speed_bits;
    }

    /// Configures the equalizer from one gain per band (see `eq_plan`).
    pub fn set_eq_gains(&mut self, gains: &[u32])
        requires
            old(self).wf(),
        ensures
            final(self).wf(),
            final(self)@ == old(self)@.with_eq_gains(gains@),
            final(self).media_spec() == old(self).media_spec(),
    {
        self.dsp.set_eq_gains(gains);
    }

    pub fn volume_bits(&self) -> (v: u32)
        ensures
            v == self@.volume_bits,
    {
        self.volume_bits
    }

    pub fn speed_bits(&self) -> (v: u32)
        ensures
            v == self@.speed_bits,
    {
        self.speed_bits
    }

    pub fn is_playing(&self) -> (p: bool)
        ensures
            p == self@.playing,
    {
        self.playing
    }

    pub fn dsp(&self) -> (d: &DspPipeline)
        ensures
            d@ == self@.dsp,
    {
        &self.dsp
    }

    /// Position in the track, in milliseconds.
    pub fn get_position(&self) -> (ms: i64)
        ensures
            ms == self@.position_ms,
    {
        self.position_ms
    }

    /// Duration of the loaded track, in milliseconds; 0 when none is loaded.
    pub fn get_duration(&self) -> (ms: i64)
        ensures
            ms == self@.duration_ms(),
    {
        match &self.decoder {
            Some(d) => d.duration_ms(),
            None => 0,
        }
    }

    /// Whether the next output block is decoded from the track; when not,
    /// the block is silence and the state is left as it is.
    pub fn renders_track(&self) -> (r: bool)
        ensures
            r == self@.renders_track(),
    {
        self.playing && self.decoder.is_some()
    }

    /// Records a rendered block that covered `elapsed_ms` milliseconds of the track.
    pub fn finish_block(&mut self, elapsed_ms: i64)
        requires
            old(self).wf(),
            old(self)@.track is Some,
            i64::MIN <= old(self)@.position_ms + elapsed_ms <= i64::MAX,
        ensures
            final(self).wf(),
            final(self)@ == old(self)@.after_block(elapsed_ms),
            final(self).media_spec() == old(self).media_spec(),
    {
        self.position_ms = self.position_ms + elapsed_ms;
        let finished = match &self.decoder {
            Some(d) => d.is_finished(),
            None => false,
        };
        if finished {
            self.playing = false;
        }
    }

    /// The loaded decoder.
    pub fn decoder(&self) -> (d: Option<&Decoder<M>>)
        ensures
            match d {
                Some(d) => self@.track == Some(d@) && self.media_spec() == Some(d.media_spec()),
                None => self@.track is None,
            },
    {
        self.decoder.as_ref()
    }

    /// The loaded decoder, for an operation on its media handles.
    pub fn decoder_mut(&mut self) -> (d: Option<&mut Decoder<M>>)
        requires
            old(self).wf(),
        ensures
            final(self).wf(),
            match d {
                Some(d) => {
                    &&& old(self)@.track == Some(d@)
                    &&& old(self).media_spec() == Some(d.media_spec())
                    &&& final(self)@ == PlayerModel { track: Some(final(d)@), ..old(self)@ }
                    &&& final(self).media_spec() == Some(final(d).media_spec())
                },
                None => {
                    &&& old(self)@.track is None
                    &&& final(self)@ == old(self)@
                    &&& final(self).media_spec() is None
                },
            },
    {
        self.decoder.as_mut()
    }
}

/// Decoding progress within one output block of `capacity` samples, of
/// which `filled` are decoded, after the decoder reported `decoded` more
/// (`None` for a decoding error): the new count while decoding goes on,
/// `None` when the block ends there. The block ends on an error and on a
/// call that decoded nothing; the count never passes `capacity`.
pub fn next_fill_level(filled: usize, capacity: usize, decoded: Option<usize>) -> (r: Option<usize>)
    requires
        filled < capacity,
        decoded matches Some(n) ==> n <= capacity - filled,
    ensures
        r == (match decoded {
            Some(n) => if n > 0 { Some((filled + n) as usize) } else { None },
            None => None,
        }),
        r matches Some(k) ==> filled < k <= capacity,
{
    match decoded {
        Some(n) => if n > 0 {
            Some(filled + n)
        } else {
            None
        },
        None => None,
    }
}

/// With no track loaded, the position is at the start.
pub proof fn lemma_no_track_no_position<M>(s: PlayerState<M>)
    requires
        s.wf(),
    ensures
        s@.track is None ==> s@.position_ms == 0,
        s@.track is None ==> s@.duration_ms() == 0,
{
}

/// Every request keeps the state consistent.
pub proof fn lemma_requests_keep_consistency(
    m: PlayerModel,
    track: TrackStatus,
    pos_ms: i64,
    decoder_seeked: bool,
    bits: u32,
    gains: Seq<u32>,
    elapsed_ms: i64,
)
    requires
        m.consistent(),
    ensures
        m.loaded(track).consistent(),
        m.played().consistent(),
        m.paused().consistent(),
        m.stopped().consistent(),
        m.seeked(pos_ms, decoder_seeked).consistent(),
        m.with_volume(bits).consistent(),
        m.with_speed(bits).consistent(),
        m.with_eq_gains(gains).consistent(),
        m.track is Some ==> m.after_block(elapsed_ms).consistent(),
{
}

/// Stopping closes the track, rewinds and halts playback, keeps the output
/// settings, and a second stop changes nothing.
pub proof fn lemma_stop(m: PlayerModel)
    ensures
        m.stopped().track is None,
        m.stopped().position_ms == 0,
        !m.stopped().playing,
        m.stopped().duration_ms() == 0,
        m.stopped().volume_bits == m.volume_bits,
        m.stopped().speed_bits == m.speed_bits,
        m.stopped().dsp == m.dsp,
        m.stopped().stopped() == m.stopped(),
{
}

/// Loading a track rewinds to its start and reports its duration; a later
/// load replaces it entirely.
pub proof fn lemma_load(m: PlayerModel, first: TrackStatus, second: TrackStatus)
    ensures
        m.loaded(first).position_ms == 0,
        m.loaded(first).duration_ms() == first.duration_ms,
        m.loaded(first).playing == m.playing,
        m.loaded(first).loaded(second) == m.loaded(second),
{
}

/// Pausing and resuming touch nothing but whether the track plays.
pub proof fn lemma_pause_resume(m: PlayerModel)
    ensures
        m.paused().played() == m.played(),
        m.played().paused() == m.paused(),
        m.paused().position_ms == m.position_ms,
        m.played().position_ms == m.position_ms,
        m.paused().track == m.track,
        m.played().track == m.track,
{
}

/// A seek that the decoder performed moves the position to its target; a
/// failed seek, or one with no track loaded, changes nothing.
pub proof fn lemma_seek(m: PlayerModel, pos_ms: i64)
    ensures
        m.track is Some ==> m.seeked(pos_ms, true).position_ms == pos_ms,
        m.track is Some ==> !m.seeked(pos_ms, true).track.unwrap().finished,
        m.track is Some ==> m.seeked(pos_ms, true).duration_ms() == m.duration_ms(),
        m.seeked(pos_ms, true).playing == m.playing,
        m.seeked(pos_ms, false) == m,
        m.track is None ==> m.seeked(pos_ms, true) == m,
{
}

/// Rendering moves the position forward by what the block covered and
/// never backward; playback halts exactly when the track is finished.
pub proof fn lemma_block(m: PlayerModel, elapsed_ms: i64)
    requires
        m.track is Some,
        0 <= elapsed_ms,
        m.position_ms + elapsed_ms <= i64::MAX,
    ensures
        m.after_block(elapsed_ms).position_ms == m.position_ms + elapsed_ms,
        m.after_block(elapsed_ms).position_ms >= m.position_ms,
        m.after_block(elapsed_ms).playing == (m.playing && !m.track.unwrap().finished),
        m.after_block(elapsed_ms).track == m.track,
{
}

/// Output settings are independent of playback: changing one leaves track,
/// position and playing untouched, and reads back what was set.
pub proof fn lemma_settings(m: PlayerModel, bits: u32, gains: Seq<u32>)
    ensures
        m.with_volume(bits).volume_bits == bits,
        m.with_speed(bits).speed_bits == bits,
        m.with_eq_gains(gains).dsp.bands == eq_plan(gains),
        m.with_volume(bits).stopped() == m.stopped().with_volume(bits),
        m.with_speed(bits).stopped() == m.stopped().with_speed(bits),
        m.with_eq_gains(gains).stopped() == m.stopped().with_eq_gains(gains),
        m.with_volume(bits).position_ms == m.position_ms,
        m.with_volume(bits).track == m.track,
        m.with_volume(bits).playing == m.playing,
{
}


/// A block is decoded from the track exactly when a track is loaded and
/// playing; the output settings (volume, speed, equalizer) and seeking
/// never decide it.
pub proof fn lemma_renders_track(
    m: PlayerModel,
    track: TrackStatus,
    bits: u32,
    gains: Seq<u32>,
    pos_ms: i64,
    decoder_seeked: bool,
)
    ensures
        m.renders_track() <==> (m.playing && m.track is Some),
        m.loaded(track).played().renders_track(),
        m.played().loaded(track).renders_track(),
        !m.paused().renders_track(),
        !m.stopped().renders_track(),
        m.with_volume(bits).renders_track() == m.renders_track(),
        m.with_speed(bits).renders_track() == m.renders_track(),
        m.with_eq_gains(gains).renders_track() == m.renders_track(),
        m.seeked(pos_ms, decoder_seeked).renders_track() == m.renders_track(),
        m.track is Some && m.playing && !m.track.unwrap().finished ==> m.after_block(
            pos_ms,
        ).renders_track(),
{
}

} // verus!
