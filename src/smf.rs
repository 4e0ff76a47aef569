//! The standard MIDI file decoder, seen through names for what it makes of
//! a file's bytes. A `SmfFile` can only be had from `SmfFile::parse`, so
//! the decoded file it holds is always that of its own bytes.
use vstd::prelude::*;
use midly::{MetaMessage, MidiMessage, TrackEventKind};
use crate::midi::{HeaderTiming, RawEvent, RawKind};

verus! {

#[verifier::external_type_specification]
#[verifier::external_body]
pub struct ExSmf<'a>(midly::Smf<'a>);

/// Whether `midly::Smf::parse` accepts the bytes `b` as a standard MIDI file.
pub uninterp spec fn smf_accepts(b: Seq<u8>) -> bool;

/// The header timing of the file `midly::Smf::parse` decodes from `b`.
pub uninterp spec fn smf_timing(b: Seq<u8>) -> HeaderTiming;

/// The number of tracks of the file `midly::Smf::parse` decodes from `b`.
pub uninterp spec fn smf_track_count(b: Seq<u8>) -> nat;

/// The number of events of track `t` of the file decoded from `b`.
pub uninterp spec fn smf_track_len(b: Seq<u8>, t: int) -> nat;

/// Event `e` of track `t` of the file decoded from `b`, in plain values.
pub uninterp spec fn smf_event(b: Seq<u8>, t: int, e: int) -> RawEvent;

/// A file's bytes together with what the decoder made of them.
pub struct SmfFile<'a> {
    raw: &'a [u8],
    smf: midly::Smf<'a>,
}

impl<'a> SmfFile<'a> {
    /// The bytes the file was decoded from.
    pub closed spec fn bytes(&self) -> Seq<u8> {
        self.raw@
    }

    /// Relies on `midly::Smf::parse`: decodes a standard MIDI file from its
    /// bytes, or fails on a malformed one; which, and what it decodes,
    /// depends on the bytes alone.
    #[verifier::external_body]
    pub fn parse(raw: &'a [u8]) -> (r: Option<SmfFile<'a>>)
        ensures
            r is Some == smf_accepts(raw@),
            r is Some ==> r->Some_0.bytes() == raw@,
    {
        match midly::Smf::parse(raw) {
            Ok(smf) => Some(SmfFile { raw, smf }),
            Err(_) => None,
        }
    }

    /// Relies on the `header.timing` field of `midly::Smf`, `u15::as_int`
    /// and `midly::Fps::as_int`, which gives 24, 25, 29 or 30: the header's
    /// timing as plain integers.
    #[verifier::external_body]
    pub fn timing(&self) -> (r: HeaderTiming)
        ensures
            r == smf_timing(self.bytes()),
            r.wf(),
    {
        match self.smf.header.timing {
            midly::Timing::Metrical(t) => HeaderTiming::Metrical(t.as_int()),
            midly::Timing::Timecode(fps, sub) => HeaderTiming::Timecode { fps: fps.as_int(), subframe: sub },
        }
    }

    /// Relies on the `tracks` field of `midly::Smf`: the number of tracks.
    #[verifier::external_body]
    pub fn track_count(&self) -> (r: usize)
        ensures
            r == smf_track_count(self.bytes()),
    {
        self.smf.tracks.len()
    }

    /// Relies on the `tracks` field of `midly::Smf`: the number of events
    /// of track `t`.
    #[verifier::external_body]
    pub fn track_len(&self, t: usize) -> (r: usize)
        requires
            t < smf_track_count(self.bytes()),
        ensures
            r == smf_track_len(self.bytes(), t as int),
    {
        self.smf.tracks[t].len()
    }

    /// Relies on the fields of `midly::TrackEvent`, `as_int` of midly's 7-,
    /// 24- and 28-bit integers, and the variants of `TrackEventKind`: event
    /// `e` of track `t` in plain values.
    #[verifier::external_body]
    pub fn event(&self, t: usize, e: usize) -> (r: RawEvent)
        requires
            t < smf_track_count(self.bytes()),
            e < smf_track_len(self.bytes(), t as int),
        ensures
            r == smf_event(self.bytes(), t as int, e as int),
    {
        let ev = &self.smf.tracks[t][e];
        let kind = match ev.kind {
            TrackEventKind::Midi { message: MidiMessage::NoteOff { key, .. }, .. } => RawKind::NoteOff { key: key.as_int() },
            TrackEventKind::Midi { message: MidiMessage::NoteOn { key, vel }, .. } => RawKind::NoteOn { key: key.as_int(), vel: vel.as_int() },
            TrackEventKind::Meta(MetaMessage::Tempo(t)) => RawKind::Tempo(t.as_int()),
            TrackEventKind::Meta(MetaMessage::TrackName(b)) => RawKind::TrackName(b.to_vec()),
            TrackEventKind::Meta(MetaMessage::InstrumentName(b)) => RawKind::InstrumentName(b.to_vec()),
            _ => RawKind::Other,
        };
        RawEvent { delta: ev.delta.as_int(), kind }
    }
}

} // verus!
