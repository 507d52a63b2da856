//! Bookkeeping of an open decoder.
//!
//! A decoder pairs the media handles that decode a track (of any type `M`,
//! opaque here) with what the player reads of it: the track's duration and
//! whether decoding has reached its end.
use vstd::prelude::*;

verus! {

/// What the player knows of the track behind a decoder.
pub struct TrackStatus {
    pub duration_ms: i64,
    pub finished: bool,
}

/// An open decoder over media handles of type `M`.
pub struct Decoder<M> {
    media: M,
    duration_ms: i64,
    is_finished: bool,
}

impl<M> View for Decoder<M> {
    type V = TrackStatus;

    closed spec fn view(&self) -> TrackStatus {
        TrackStatus { duration_ms: self.duration_ms, finished: self.is_finished }
    }
}

impl<M> Decoder<M> {
    /// The media handles that this decoder reads from.
    pub closed spec fn media_spec(&self) -> M {
        self.media
    }

    /// A decoder at the start of a track of `duration_ms` milliseconds.
    pub fn new(media: M, duration_ms: i64) -> (d: Self)
        ensures
            d@.duration_ms == duration_ms,
            !d@.finished,
            d.media_spec() == media,
    {
        Decoder { media, duration_ms, is_finished: false }
    }

    /// Duration of the track, in milliseconds.
    pub fn duration_ms(&self) -> (ms: i64)
        ensures
            ms == self@.duration_ms,
    {
        self.duration_ms
    }

    /// Whether decoding has reached the end of the track.
    pub fn is_finished(&self) -> (f: bool)
        ensures
            f == self@.finished,
    {
        self.is_finished
    }

    /// The media handles.
    pub fn media(&self) -> (m: &M)
        ensures
            *m == self.media_spec(),
    {
        &self.media
    }

    /// The media handles, for an operation on the stream itself.
    pub fn media_mut(&mut self) -> (m: &mut M)
        ensures
            *m == old(self).media_spec(),
            final(self).media_spec() == *final(m),
            final(self)@ == old(self)@,
    {
        &mut self.media
    }

    /// Records that the stream was repositioned: decoding resumes, so the end
    /// of the track is no longer reached.
    pub fn note_seek(&mut self)
        ensures
            final(self)@.duration_ms == old(self)@.duration_ms,
            !final(self)@.finished,
            final(self).media_spec() == old(self).media_spec(),
    {
        self.is_finished = false;
    }
}

/// Channel layout that decoded audio is resampled to.
#[derive(Clone, Copy, Debug, PartialEq, Eq, Structural)]
pub enum OutputLayout {
    Mono,
    Stereo,
}

/// The layout for an output device with `channels` channels: mono for a
/// single channel, stereo otherwise.
pub fn output_layout(channels: usize) -> (l: OutputLayout)
    ensures
        (l == OutputLayout::Mono) <==> channels == 1,
        (l == OutputLayout::Stereo) <==> channels != 1,
{
    if channels == 1 {
        OutputLayout::Mono
    } else {
        OutputLayout::Stereo
    }
}

} // verus!
