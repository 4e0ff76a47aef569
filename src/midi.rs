//! Decoding of standard MIDI files into timing and per-track event sequences.
use vstd::prelude::*;
use crate::smf::{smf_accepts, smf_event, smf_timing, smf_track_count, smf_track_len, SmfFile};

verus! {

/// What `String::from_utf8_lossy` makes of the bytes `b`.
pub uninterp spec fn utf8_lossy(b: Seq<u8>) -> Seq<char>;

/// Relies on `String::from_utf8_lossy`: the text of `b`, with each invalid
/// sequence replaced; it depends on the bytes alone.
#[verifier::external_body]
fn lossy_string(b: &[u8]) -> (r: String)
    ensures
        r@ == utf8_lossy(b@),
{
    String::from_utf8_lossy(b).into_owned()
}

proof fn lemma_byte_product(a: u8, b: u8)
    ensures
        a * b <= 255 * 255,
{
    assert(a * b <= 255 * 255) by (nonlinear_arith)
        requires
            a <= 255,
            b <= 255,
    ;
}

/// Timing as a file's header states it.
#[derive(Clone, Copy, Debug, PartialEq, Eq, Structural)]
pub enum HeaderTiming {
    /// Ticks per beat.
    Metrical(u16),
    /// Frames per second, and ticks per frame.
    Timecode { fps: u8, subframe: u8 },
}

impl HeaderTiming {
    /// Ticks per beat fit in 15 bits; frames per second are 24, 25, 29
    /// (for 29.97) or 30.
    pub open spec fn wf(self) -> bool {
        match self {
            HeaderTiming::Metrical(tpb) => tpb < 0x8000,
            HeaderTiming::Timecode { fps, .. } => fps == 24 || fps == 25 || fps == 29 || fps == 30,
        }
    }
}

/// Tick duration assumed for a metrical file until its first tempo event.
pub const DEFAULT_TICK_US: u32 = 500;

/// The timing that playback starts from: ticks per beat from the header;
/// as tick duration `initial_tick_us` where given, else for a metrical file
/// the default and for a timecode file one over frames per second times
/// ticks per frame, in whole microseconds. None where that quotient has a
/// zero divisor.
pub open spec fn timing_of(h: HeaderTiming, initial_tick_us: Option<u32>) -> Option<Timing> {
    match h {
        HeaderTiming::Metrical(tpb) => Some(
            Timing {
                ticks_per_beat: tpb as u32,
                tick_us: match initial_tick_us {
                    Some(t) => t,
                    None => DEFAULT_TICK_US,
                },
            },
        ),
        HeaderTiming::Timecode { fps, subframe } => match initial_tick_us {
            Some(t) => Some(Timing { ticks_per_beat: subframe as u32, tick_us: t }),
            None => if fps * subframe == 0 {
                None
            } else {
                Some(
                    Timing {
                        ticks_per_beat: subframe as u32,
                        tick_us: (1_000_000int / (fps * subframe)) as u32,
                    },
                )
            },
        },
    }
}

/// The timing that playback starts from (see `timing_of`).
pub fn deduce_timing(timing: HeaderTiming, initial_tick_us: Option<u32>) -> (r: Option<Timing>)
    ensures
        r == timing_of(timing, initial_tick_us),
{
    match timing {
        HeaderTiming::Metrical(tpb) => {
            let tick_us = match initial_tick_us {
                Some(t) => t,
                None => DEFAULT_TICK_US,
            };
            Some(Timing { ticks_per_beat: tpb as u32, tick_us })
        },
        HeaderTiming::Timecode { fps, subframe } => match initial_tick_us {
            Some(t) => Some(Timing { ticks_per_beat: subframe as u32, tick_us: t }),
            None => {
                proof {
                    lemma_byte_product(fps, subframe);
                }
                let per_second: u32 = (fps as u32) * (subframe as u32);
                if per_second == 0 {
                    None
                } else {
                    Some(Timing { ticks_per_beat: subframe as u32, tick_us: 1_000_000 / per_second })
                }
            },
        },
    }
}

/// Timing of a sequence: ticks per beat and the initial tick duration.
#[derive(Clone, Copy, Debug, PartialEq, Eq, Structural)]
pub struct Timing {
    pub ticks_per_beat: u32,
    /// Microseconds per tick at the start of playback.
    pub tick_us: u32,
}

/// What an event does when its time comes.
#[derive(Clone, Debug)]
pub enum EventKind {
    /// Sound `key` at velocity `vel`; velocity zero silences it.
    NoteUpdate { key: u8, vel: u8 },
    /// A new tempo, in microseconds per beat.
    TempoUpdate(u32),
    TrackName(String),
    TrackInstrument(String),
}

/// One event of a track, `delta` ticks after the previous one.
#[derive(Clone, Debug)]
pub struct Event {
    pub delta: u32,
    pub kind: Option<EventKind>,
}

/// The parts of a file's event that playback reads, as plain values.
#[derive(Clone, Debug)]
pub enum RawKind {
    NoteOff { key: u8 },
    NoteOn { key: u8, vel: u8 },
    /// Microseconds per beat.
    Tempo(u32),
    TrackName(Vec<u8>),
    InstrumentName(Vec<u8>),
    /// Any other channel, system or meta message.
    Other,
}

/// An event of a file's track: its delta in ticks and what it holds.
#[derive(Clone, Debug)]
pub struct RawEvent {
    pub delta: u32,
    pub kind: RawKind,
}

/// A decoded file: its header timing and its tracks in order.
#[derive(Clone, Debug)]
pub struct RawSmf {
    pub timing: HeaderTiming,
    pub tracks: Vec<Vec<RawEvent>>,
}

/// Why a sequence could not be made from a file.
#[derive(Clone, Copy, Debug, PartialEq, Eq, Structural)]
pub enum MidiError {
    /// The bytes are not a standard MIDI file.
    Malformed,
    /// A timecode header with zero frames or ticks per frame, and no tick
    /// duration given.
    NoTickDuration,
    /// A track was asked for that the file does not have.
    NoSuchTrack(usize),
}

/// `k` is the playable form of the file event `raw`: a note-off becomes a
/// note update at velocity zero, texts are decoded, and other messages carry
/// nothing.
pub open spec fn converts_to(raw: RawKind, k: Option<EventKind>) -> bool {
    match raw {
        RawKind::NoteOff { key } => k == Some(EventKind::NoteUpdate { key, vel: 0 }),
        RawKind::NoteOn { key, vel } => k == Some(EventKind::NoteUpdate { key, vel }),
        RawKind::Tempo(t) => k == Some(EventKind::TempoUpdate(t)),
        RawKind::TrackName(b) => k is Some && k->Some_0 is TrackName && k->Some_0->TrackName_0@
            == utf8_lossy(b@),
        RawKind::InstrumentName(b) => k is Some && k->Some_0 is TrackInstrument
            && k->Some_0->TrackInstrument_0@ == utf8_lossy(b@),
        RawKind::Other => k is None,
    }
}

/// `events` is the playable form of the file track `track`, event for event.
pub open spec fn track_converts_to(track: Seq<RawEvent>, events: Seq<Event>) -> bool {
    &&& events.len() == track.len()
    &&& forall|i: int|
        0 <= i < track.len() ==> events[i].delta == #[trigger] track[i].delta && converts_to(
            track[i].kind,
            events[i].kind,
        )
}

fn convert_event(raw: &RawEvent) -> (r: Event)
    ensures
        r.delta == raw.delta,
        converts_to(raw.kind, r.kind),
{
    let kind = match &raw.kind {
        RawKind::NoteOff { key } => Some(EventKind::NoteUpdate { key: *key, vel: 0 }),
        RawKind::NoteOn { key, vel } => Some(EventKind::NoteUpdate { key: *key, vel: *vel }),
        RawKind::Tempo(t) => Some(EventKind::TempoUpdate(*t)),
        RawKind::TrackName(b) => Some(EventKind::TrackName(lossy_string(b.as_slice()))),
        RawKind::InstrumentName(b) => Some(EventKind::TrackInstrument(lossy_string(b.as_slice()))),
        RawKind::Other => None,
    };
    Event { delta: raw.delta, kind }
}

/// The playable form of a file's track.
pub fn convert(track: &Vec<RawEvent>) -> (r: Vec<Event>)
    ensures
        track_converts_to(track@, r@),
{
    let mut out: Vec<Event> = Vec::new();
    let mut i: usize = 0;
    while i < track.len()
        invariant
            i <= track.len(),
            out.len() == i,
            forall|j: int|
                0 <= j < i ==> out@[j].delta == #[trigger] track@[j].delta && converts_to(
                    track@[j].kind,
                    out@[j].kind,
                ),
        decreases track.len() - i,
    {
        let e = convert_event(&track[i]);
        out.push(e);
        i = i + 1;
    }
    out
}

/// The bytes of the text that `k` holds: a track name where `instrument` is
/// false, an instrument name where it is true.
pub open spec fn text_of(k: RawKind, instrument: bool) -> Option<Seq<u8>> {
    match k {
        RawKind::TrackName(b) => if instrument {
            None
        } else {
            Some(b@)
        },
        RawKind::InstrumentName(b) => if instrument {
            Some(b@)
        } else {
            None
        },
        _ => None,
    }
}

/// `r` is the decoded text of the first event of `track` that holds the
/// kind of text chosen by `instrument`, or None where none does.
pub open spec fn first_text(track: Seq<RawEvent>, instrument: bool, r: Option<Seq<char>>) -> bool {
    match r {
        None => forall|i: int|
            0 <= i < track.len() ==> text_of(#[trigger] track[i].kind, instrument) is None,
        Some(s) => exists|i: int|
            0 <= i < track.len() && (#[trigger] text_of(track[i].kind, instrument)) is Some
                && s == utf8_lossy(text_of(track[i].kind, instrument)->Some_0) && forall|j: int|
                0 <= j < i ==> text_of(#[trigger] track[j].kind, instrument) is None,
    }
}

fn find_text(track: &Vec<RawEvent>, instrument: bool) -> (r: Option<String>)
    ensures
        first_text(track@, instrument, match r {
            Some(s) => Some(s@),
            None => None,
        }),
{
    let mut i: usize = 0;
    while i < track.len()
        invariant
            i <= track.len(),
            forall|j: int| 0 <= j < i ==> text_of(#[trigger] track@[j].kind, instrument) is None,
        decreases track.len() - i,
    {
        match &track[i].kind {
            RawKind::TrackName(b) => {
                if !instrument {
                    return Some(lossy_string(b.as_slice()));
                }
            },
            RawKind::InstrumentName(b) => {
                if instrument {
                    return Some(lossy_string(b.as_slice()));
                }
            },
            _ => {},
        }
        i = i + 1;
    }
    None
}

/// The track's name: the text of its first track-name event.
pub fn get_track_name_raw(track: &Vec<RawEvent>) -> (r: Option<String>)
    ensures
        first_text(track@, false, match r {
            Some(s) => Some(s@),
            None => None,
        }),
{
    find_text(track, false)
}

/// The track's instrument: the text of its first instrument-name event.
pub fn get_track_instrument_raw(track: &Vec<RawEvent>) -> (r: Option<String>)
    ensures
        first_text(track@, true, match r {
            Some(s) => Some(s@),
            None => None,
        }),
{
    find_text(track, true)
}

/// `f` holds, in plain values, what the decoder makes of the bytes `b`:
/// the header timing, and every track, event for event.
pub open spec fn decodes_to(b: Seq<u8>, f: RawSmf) -> bool {
    &&& f.timing == smf_timing(b)
    &&& f.tracks@.len() == smf_track_count(b)
    &&& forall|t: int|
        0 <= t < f.tracks@.len() ==> (#[trigger] f.tracks@[t])@.len() == smf_track_len(b, t)
    &&& forall|t: int, e: int|
        0 <= t < f.tracks@.len() && 0 <= e < f.tracks@[t]@.len() ==> #[trigger] f.tracks@[t]@[e]
            == smf_event(b, t, e)
}

fn load_track(file: &SmfFile, t: usize) -> (r: Vec<RawEvent>)
    requires
        t < smf_track_count(file.bytes()),
    ensures
        r@.len() == smf_track_len(file.bytes(), t as int),
        forall|e: int| 0 <= e < r@.len() ==> #[trigger] r@[e] == smf_event(file.bytes(), t as int, e),
{
    let n = file.track_len(t);
    let mut out: Vec<RawEvent> = Vec::new();
    let mut e: usize = 0;
    while e < n
        invariant
            t < smf_track_count(file.bytes()),
            n == smf_track_len(file.bytes(), t as int),
            e <= n,
            out@.len() == e,
            forall|i: int| 0 <= i < e ==> #[trigger] out@[i] == smf_event(file.bytes(), t as int, i),
        decreases n - e,
    {
        out.push(file.event(t, e));
        e = e + 1;
    }
    out
}

/// Decodes a standard MIDI file: its header timing and every track, event
/// for event, as the decoder reads them. Fails with `Malformed` exactly
/// where the decoder rejects the bytes.
pub fn load_smf(bytes: &[u8]) -> (r: Result<RawSmf, MidiError>)
    ensures
        r is Ok == smf_accepts(bytes@),
        r is Err ==> r->Err_0 == MidiError::Malformed,
        r is Ok ==> decodes_to(bytes@, r->Ok_0),
        r is Ok ==> r->Ok_0.timing.wf(),
{
    let file = match SmfFile::parse(bytes) {
        Some(f) => f,
        None => return Err(MidiError::Malformed),
    };
    let timing = file.timing();
    let n = file.track_count();
    let mut tracks: Vec<Vec<RawEvent>> = Vec::new();
    let mut t: usize = 0;
    while t < n
        invariant
            file.bytes() == bytes@,
            n == smf_track_count(bytes@),
            t <= n,
            tracks@.len() == t,
            forall|i: int| 0 <= i < t ==> (#[trigger] tracks@[i])@.len() == smf_track_len(bytes@, i),
            forall|i: int, e: int|
                0 <= i < t && 0 <= e < tracks@[i]@.len() ==> #[trigger] tracks@[i]@[e]
                    == smf_event(bytes@, i, e),
        decreases n - t,
    {
        let track = load_track(&file, t);
        tracks.push(track);
        t = t + 1;
    }
    Ok(RawSmf { timing, tracks })
}

/// A sequence ready for playback: its timing and the chosen tracks.
pub struct MidiSequence {
    pub timing: Timing,
    pub tracks: Vec<Vec<Event>>,
}

impl MidiSequence {
    /// The sequence that plays the tracks of `smf` at `track_indices`, in
    /// that order, from the timing that `deduce_timing` gives. Fails with
    /// `NoTickDuration` where there is no such timing, and otherwise with
    /// `NoSuchTrack` naming the first index that the file lacks.
    pub fn from_smf(smf: &RawSmf, track_indices: &Vec<usize>, initial_tick_us: Option<u32>) -> (r:
        Result<MidiSequence, MidiError>)
        ensures
            timing_of(smf.timing, initial_tick_us) is None ==> r == Err::<MidiSequence, MidiError>(
                MidiError::NoTickDuration,
            ),
            timing_of(smf.timing, initial_tick_us) is Some && (exists|k: int|
                0 <= k < track_indices.len() && track_indices@[k] >= smf.tracks.len()) ==> ({
                let k = choose|k: int|
                    0 <= k < track_indices.len() && track_indices@[k] >= smf.tracks.len()
                        && forall|m: int| 0 <= m < k ==> track_indices@[m] < smf.tracks.len();
                r == Err::<MidiSequence, MidiError>(MidiError::NoSuchTrack(track_indices@[k]))
            }),
            r is Ok ==> {
                &&& Some(r->Ok_0.timing) == timing_of(smf.timing, initial_tick_us)
                &&& r->Ok_0.tracks.len() == track_indices.len()
                &&& forall|k: int|
                    0 <= k < track_indices.len() ==> track_converts_to(
                        smf.tracks@[track_indices@[k] as int]@,
                        (#[trigger] r->Ok_0.tracks@[k])@,
                    )
            },
            (timing_of(smf.timing, initial_tick_us) is Some && forall|k: int|
                0 <= k < track_indices.len() ==> #[trigger] track_indices@[k] < smf.tracks.len())
                ==> r is Ok,
    {
        let timing = match deduce_timing(smf.timing, initial_tick_us) {
            Some(t) => t,
            None => return Err(MidiError::NoTickDuration),
        };
        let mut tracks: Vec<Vec<Event>> = Vec::new();
        let mut k: usize = 0;
        while k < track_indices.len()
            invariant
                timing_of(smf.timing, initial_tick_us) == Some(timing),
                k <= track_indices.len(),
                tracks.len() == k,
                forall|m: int| 0 <= m < k ==> track_indices@[m] < smf.tracks.len(),
                forall|m: int|
                    0 <= m < k ==> track_converts_to(
                        smf.tracks@[track_indices@[m] as int]@,
                        (#[trigger] tracks@[m])@,
                    ),
            decreases track_indices.len() - k,
        {
            let n = track_indices[k];
            if n >= smf.tracks.len() {
                let ghost kk = k as int;
                assert(forall|m: int| 0 <= m < kk ==> track_indices@[m] < smf.tracks.len());
                proof {
                    let c = choose|c: int|
                        0 <= c < track_indices.len() && track_indices@[c] >= smf.tracks.len()
                            && forall|m: int| 0 <= m < c ==> track_indices@[m] < smf.tracks.len();
                    if c < kk {
                    } else if c > kk {
                        assert(track_indices@[kk] < smf.tracks.len());
                    }
                    assert(c == kk);
                }
                return Err(MidiError::NoSuchTrack(n));
            }
            tracks.push(convert(&smf.tracks[n]));
            k = k + 1;
        }
        Ok(MidiSequence { timing, tracks })
    }
}

} // verus!
