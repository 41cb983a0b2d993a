//! Scanning a standard MIDI file for loop markers, and the diagnostics of a
//! scan.
use crate::error::{ErrorKind, FlutzError};
use crate::numbers::{max_of, min_of};
use vstd::prelude::*;
use vstd::slice::slice_subrange;

verus! {

/// How a MIDI file marks its loop.
#[derive(Debug, Copy, Clone, PartialEq, Eq, Structural)]
pub enum MidiFileLoopType {
    LoopPoint(usize),
    RpgMaker,
    IncredibleMachine,
    FinalFantasy,
    Other,
}

impl MidiFileLoopType {
    /// Whether no particular style of loop markers is used.
    pub open spec fn is_plain(self) -> bool {
        self is LoopPoint
    }

    pub open spec fn label(self) -> Seq<char> {
        match self {
            MidiFileLoopType::LoopPoint(_) => "none"@,
            MidiFileLoopType::RpgMaker => "rpg-maker"@,
            MidiFileLoopType::IncredibleMachine => "incredible-machine"@,
            MidiFileLoopType::FinalFantasy => "final-fantasy"@,
            MidiFileLoopType::Other => "other"@,
        }
    }

    pub fn is_plain_loop_point(self) -> (plain: bool)
        ensures
            plain == self.is_plain(),
    {
        match self {
            MidiFileLoopType::LoopPoint(_) => true,
            _ => false,
        }
    }
}

pub fn loop_type_label(loop_type: MidiFileLoopType) -> (label: &'static str)
    ensures
        label@ == loop_type.label(),
{
    match loop_type {
        MidiFileLoopType::LoopPoint(_) => "none",
        MidiFileLoopType::RpgMaker => "rpg-maker",
        MidiFileLoopType::IncredibleMachine => "incredible-machine",
        MidiFileLoopType::FinalFantasy => "final-fantasy",
        MidiFileLoopType::Other => "other",
    }
}

/// How often each loop marker controller occurs.
#[derive(Debug, Copy, Clone, PartialEq, Eq, Structural)]
pub struct LoopMarkerStats {
    pub rpg_start_count: u32,
    pub im_start_count: u32,
    pub im_end_count: u32,
    pub ff_start_count: u32,
    pub ff_end_count: u32,
}

/// The counts as numbers without a limit.
pub ghost struct MarkerCounts {
    pub rpg_start: nat,
    pub im_start: nat,
    pub im_end: nat,
    pub ff_start: nat,
    pub ff_end: nat,
}

/// No marker seen.
pub open spec fn no_markers() -> MarkerCounts {
    MarkerCounts { rpg_start: 0, im_start: 0, im_end: 0, ff_start: 0, ff_end: 0 }
}

impl MarkerCounts {
    /// Every count is at most `n`.
    pub open spec fn at_most(self, n: int) -> bool {
        &&& self.rpg_start <= n
        &&& self.im_start <= n
        &&& self.im_end <= n
        &&& self.ff_start <= n
        &&& self.ff_end <= n
    }

    /// The counts can be counted.
    pub open spec fn fits(self) -> bool {
        self.at_most(u32::MAX as int)
    }

    /// No count is below that of `other`.
    pub open spec fn covers(self, other: MarkerCounts) -> bool {
        &&& other.rpg_start <= self.rpg_start
        &&& other.im_start <= self.im_start
        &&& other.im_end <= self.im_end
        &&& other.ff_start <= self.ff_start
        &&& other.ff_end <= self.ff_end
    }

    /// The counts with one more control change: 110 starts a loop of one style,
    /// 111 ends it and also starts a loop of another, 116 and 117 start and end
    /// a loop of the third.
    pub open spec fn with_cc(self, controller: u8) -> MarkerCounts {
        if controller == 110 {
            MarkerCounts { im_start: self.im_start + 1, ..self }
        } else if controller == 111 {
            MarkerCounts { rpg_start: self.rpg_start + 1, im_end: self.im_end + 1, ..self }
        } else if controller == 116 {
            MarkerCounts { ff_start: self.ff_start + 1, ..self }
        } else if controller == 117 {
            MarkerCounts { ff_end: self.ff_end + 1, ..self }
        } else {
            self
        }
    }

    /// The loop style with the most complete pairs of markers; a start marker
    /// alone counts only for the style that has no end marker.
    pub open spec fn style(self) -> MidiFileLoopType {
        let im_pairs = min_of(self.im_start as int, self.im_end as int);
        let ff_pairs = min_of(self.ff_start as int, self.ff_end as int);
        if im_pairs > 0 && im_pairs >= ff_pairs {
            MidiFileLoopType::IncredibleMachine
        } else if ff_pairs > 0 {
            MidiFileLoopType::FinalFantasy
        } else if self.rpg_start > 0 {
            MidiFileLoopType::RpgMaker
        } else {
            MidiFileLoopType::LoopPoint(0)
        }
    }
}

impl View for LoopMarkerStats {
    type V = MarkerCounts;

    open spec fn view(&self) -> MarkerCounts {
        MarkerCounts {
            rpg_start: self.rpg_start_count as nat,
            im_start: self.im_start_count as nat,
            im_end: self.im_end_count as nat,
            ff_start: self.ff_start_count as nat,
            ff_end: self.ff_end_count as nat,
        }
    }
}

impl Default for LoopMarkerStats {
    fn default() -> (stats: Self)
        ensures
            stats@ == no_markers(),
    {
        LoopMarkerStats {
            rpg_start_count: 0,
            im_start_count: 0,
            im_end_count: 0,
            ff_start_count: 0,
            ff_end_count: 0,
        }
    }
}

impl LoopMarkerStats {
    /// Counts one control change.
    pub fn note_cc(&mut self, controller: u8)
        requires
            old(self)@.with_cc(controller).fits(),
        ensures
            final(self)@ == old(self)@.with_cc(controller),
    {
        if controller == 110 {
            self.im_start_count = self.im_start_count + 1;
        } else if controller == 111 {
            self.rpg_start_count = self.rpg_start_count + 1;
            self.im_end_count = self.im_end_count + 1;
        } else if controller == 116 {
            self.ff_start_count = self.ff_start_count + 1;
        } else if controller == 117 {
            self.ff_end_count = self.ff_end_count + 1;
        }
    }

    pub fn detected_loop_type(self) -> (loop_type: MidiFileLoopType)
        ensures
            loop_type == self@.style(),
    {
        let im_pairs: u32 = crate::numbers::min_u32(self.im_start_count, self.im_end_count);
        let ff_pairs: u32 = crate::numbers::min_u32(self.ff_start_count, self.ff_end_count);
        if im_pairs > 0 && im_pairs >= ff_pairs {
            MidiFileLoopType::IncredibleMachine
        } else if ff_pairs > 0 {
            MidiFileLoopType::FinalFantasy
        } else if self.rpg_start_count > 0 {
            MidiFileLoopType::RpgMaker
        } else {
            MidiFileLoopType::LoopPoint(0)
        }
    }
}

/// Why a scan stops.
pub ghost enum ScanError {
    Unterminated,
    TooLong,
    NoRunningStatus,
    NoHeader,
    BadHeaderLength,
    NoTrack,
}

/// The message of a scan error.
pub open spec fn scan_message(error: ScanError) -> Seq<char> {
    match error {
        ScanError::Unterminated => "unterminated MIDI variable length value"@,
        ScanError::TooLong => "MIDI variable length value is too long"@,
        ScanError::NoRunningStatus => "MIDI running status used before status byte"@,
        ScanError::NoHeader => "missing standard MIDI MThd header"@,
        ScanError::BadHeaderLength => "invalid MIDI header length"@,
        ScanError::NoTrack => "expected MIDI MTrk chunk"@,
    }
}

/// A variable length value from position `at` on, of which `read` bytes with
/// value `value` are read: seven bits a byte, most significant first, a byte
/// below 128 is the last, and no more than four bytes.
pub open spec fn var_len(bytes: Seq<u8>, at: int, read: int, value: int) -> Result<
    (int, int),
    ScanError,
>
    decreases 4 - read,
{
    if read >= 4 {
        Err(ScanError::TooLong)
    } else if at >= bytes.len() {
        Err(ScanError::Unterminated)
    } else {
        let next = value * 128 + bytes[at] as int % 128;
        if bytes[at] < 128 {
            Ok((next, at + 1))
        } else {
            var_len(bytes, at + 1, read + 1, next)
        }
    }
}

/// A value that is read is below 2 to the power of 28 and takes one to four
/// bytes.
pub proof fn var_len_is_bounded(bytes: Seq<u8>, at: int, read: int, value: int)
    requires
        0 <= read <= 4,
        0 <= at <= bytes.len(),
        0 <= value,
        read == 0 ==> value == 0,
        read == 1 ==> value < 128,
        read == 2 ==> value < 16_384,
        read == 3 ==> value < 2_097_152,
    ensures
        match var_len(bytes, at, read, value) {
            Ok((v, next)) => 0 <= v < 268_435_456 && at < next <= bytes.len() && next <= at + 4
                - read,
            Err(_) => true,
        },
    decreases 4 - read,
{
    if read < 4 && at < bytes.len() && bytes[at] >= 128 {
        var_len_is_bounded(bytes, at + 1, read + 1, value * 128 + bytes[at] as int % 128);
    }
}

/// Reads a variable length value and moves `offset` behind it.
pub fn read_var_len(bytes: &[u8], offset: &mut usize) -> (value: Result<u32, FlutzError>)
    ensures
        match var_len(bytes@, *old(offset) as int, 0, 0) {
            Ok((v, next)) => {
                &&& value is Ok && value->Ok_0 == v
                &&& *final(offset) == next && next <= bytes@.len()
            },
            Err(e) => {
                &&& value is Err && value->Err_0@ == (ErrorKind::InvalidInput, scan_message(e))
                &&& *final(offset) == if e == ScanError::TooLong {
                    *old(offset) + 4
                } else {
                    max_of(*old(offset) as int, bytes@.len() as int)
                }
            },
        },
{
    let mut value: u32 = 0;
    let mut read: u32 = 0;
    while read < 4
        invariant
            read <= 4,
            *offset <= bytes@.len() || read == 0,
            *offset == *old(offset) + read,
            read == 0 ==> value == 0,
            read == 1 ==> value < 128,
            read == 2 ==> value < 16_384,
            read == 3 ==> value < 2_097_152,
            var_len(bytes@, *old(offset) as int, 0, 0) == var_len(
                bytes@,
                *offset as int,
                read as int,
                value as int,
            ),
        decreases 4 - read,
    {
        if *offset >= bytes.len() {
            return Err(
                FlutzError::InvalidInput("unterminated MIDI variable length value".to_owned()),
            );
        }
        let byte: u8 = bytes[*offset];
        *offset = *offset + 1;
        value = value * 128 + byte as u32 % 128;
        if byte < 128 {
            return Ok(value);
        }
        read = read + 1;
    }
    Err(FlutzError::InvalidInput("MIDI variable length value is too long".to_owned()))
}

/// One event of a track.
pub ghost enum TrackStep {
    /// The track ends here.
    End,
    /// The scan fails here.
    Fail(ScanError),
    /// The next event, the running status and the controller of a control
    /// change.
    Event(int, Option<u8>, Option<u8>),
}

/// The event at position `at`, where a status byte may be left out: it is then
/// the last status of a channel event.
pub open spec fn track_step(track: Seq<u8>, at: int, running: Option<u8>) -> TrackStep {
    match var_len(track, at, 0, 0) {
        Err(e) => TrackStep::Fail(e),
        Ok((_, start)) => if start >= track.len() {
            TrackStep::End
        } else if track[start] < 128 {
            match running {
                None => TrackStep::Fail(ScanError::NoRunningStatus),
                Some(status) => event_step(track, start, status, running),
            }
        } else {
            let status = track[start];
            event_step(
                track,
                start + 1,
                status,
                if status < 0xF0 {
                    Some(status)
                } else {
                    running
                },
            )
        },
    }
}

/// The rest of an event behind its status byte: meta and SysEx events have a
/// length, channel events one or two data bytes; any other status ends the scan
/// of the track.
pub open spec fn event_step(
    track: Seq<u8>,
    at: int,
    status: u8,
    running: Option<u8>,
) -> TrackStep {
    if status == 0xFF {
        if at >= track.len() {
            TrackStep::End
        } else {
            sized_step(track, at + 1, running)
        }
    } else if status == 0xF0 || status == 0xF7 {
        sized_step(track, at, running)
    } else if 0x80 <= status < 0xF0 {
        let data_len = if 0xC0 <= status < 0xE0 {
            1int
        } else {
            2
        };
        if at + data_len > track.len() {
            TrackStep::End
        } else {
            TrackStep::Event(
                at + data_len,
                running,
                if 0xB0 <= status < 0xC0 {
                    Some(track[at])
                } else {
                    None
                },
            )
        }
    } else {
        TrackStep::End
    }
}

/// An event whose length comes first.
pub open spec fn sized_step(track: Seq<u8>, at: int, running: Option<u8>) -> TrackStep {
    match var_len(track, at, 0, 0) {
        Err(e) => TrackStep::Fail(e),
        Ok((len, next)) => TrackStep::Event(
            min_of(next + len, track.len() as int),
            running,
            None,
        ),
    }
}

/// The marker counts after the events of a track from position `at` on, up to its end or
/// to an error.
pub open spec fn track_markers(
    track: Seq<u8>,
    at: int,
    running: Option<u8>,
    counts: MarkerCounts,
) -> (MarkerCounts, Option<ScanError>)
    decreases track.len() - at,
{
    if at >= track.len() {
        (counts, None)
    } else {
        match track_step(track, at, running) {
            TrackStep::End => (counts, None),
            TrackStep::Fail(e) => (counts, Some(e)),
            TrackStep::Event(next, status, controller) => {
                let counted = match controller {
                    Some(c) => counts.with_cc(c),
                    None => counts,
                };
                if next <= at {
                    (counts, None)
                } else {
                    track_markers(track, next, status, counted)
                }
            },
        }
    }
}

/// Counts only grow.
proof fn lemma_markers_grow(track: Seq<u8>, at: int, running: Option<u8>, counts: MarkerCounts)
    ensures
        track_markers(track, at, running, counts).0.covers(counts),
    decreases track.len() - at,
{
    if at < track.len() {
        match track_step(track, at, running) {
            TrackStep::Event(next, status, controller) => {
                let counted = match controller {
                    Some(c) => counts.with_cc(c),
                    None => counts,
                };
                if next > at {
                    lemma_markers_grow(track, next, status, counted);
                }
            },
            _ => {},
        }
    }
}

/// Every event moves the scan forward, inside the track.
proof fn lemma_step_advances(track: Seq<u8>, at: int, running: Option<u8>)
    requires
        0 <= at < track.len(),
    ensures
        match track_step(track, at, running) {
            TrackStep::Event(next, _, _) => at < next <= track.len(),
            _ => true,
        },
{
    var_len_is_bounded(track, at, 0, 0);
    match var_len(track, at, 0, 0) {
        Ok((_, start)) => {
            var_len_is_bounded(track, start, 0, 0);
            if start < track.len() {
                var_len_is_bounded(track, start + 1, 0, 0);
                if start + 1 < track.len() {
                    var_len_is_bounded(track, start + 2, 0, 0);
                }
            }
        },
        Err(_) => {},
    }
}

/// Scans one track for loop markers.
pub fn analyze_track(track: &[u8], loop_markers: &mut LoopMarkerStats) -> (scanned: Result<
    (),
    FlutzError,
>)
    requires
        track_markers(track@, 0, None, old(loop_markers)@).0.fits(),
    ensures
        final(loop_markers)@ == track_markers(track@, 0, None, old(loop_markers)@).0,
        match track_markers(track@, 0, None, old(loop_markers)@).1 {
            None => scanned is Ok,
            Some(e) => scanned is Err && scanned->Err_0@ == (
                ErrorKind::InvalidInput,
                scan_message(e),
            ),
        },
{
    let mut offset: usize = 0;
    let mut running: Option<u8> = None;
    while offset < track.len()
        invariant
            offset <= track@.len(),
            track_markers(track@, 0, None, old(loop_markers)@).0.fits(),
            track_markers(track@, 0, None, old(loop_markers)@) == track_markers(
                track@,
                offset as int,
                running,
                loop_markers@,
            ),
        decreases track@.len() - offset,
    {
        let ghost start = offset as int;
        let ghost status_before = running;
        proof {
            lemma_step_advances(track@, start, running);
            var_len_is_bounded(track@, start, 0, 0);
        }
        match read_var_len(track, &mut offset) {
            Ok(_) => {},
            Err(error) => {
                return Err(error);
            },
        }
        if offset >= track.len() {
            return Ok(());
        }
        let first: u8 = track[offset];
        let status: u8 = if first >= 128 {
            offset = offset + 1;
            if first < 0xF0 {
                running = Some(first);
            }
            first
        } else {
            match running {
                Some(status) => status,
                None => {
                    return Err(
                        FlutzError::InvalidInput(
                            "MIDI running status used before status byte".to_owned(),
                        ),
                    );
                },
            }
        };
        if status == 0xFF || status == 0xF0 || status == 0xF7 {
            if status == 0xFF {
                if offset >= track.len() {
                    return Ok(());
                }
                offset = offset + 1;
            }
            match read_var_len(track, &mut offset) {
                Ok(len) => {
                    if len as usize >= track.len() - offset {
                        offset = track.len();
                    } else {
                        offset = offset + len as usize;
                    }
                },
                Err(error) => {
                    return Err(error);
                },
            }
        } else if 0x80 <= status && status < 0xF0 {
            let data_len: usize = if 0xC0 <= status && status < 0xE0 {
                1
            } else {
                2
            };
            if track.len() - offset < data_len {
                return Ok(());
            }
            let data: u8 = track[offset];
            offset = offset + data_len;
            if 0xB0 <= status && status < 0xC0 {
                proof {
                    lemma_markers_grow(
                        track@,
                        offset as int,
                        running,
                        loop_markers@.with_cc(data),
                    );
                }
                loop_markers.note_cc(data);
            }
        } else {
            return Ok(());
        }
    }
    Ok(())
}

/// A big-endian number of two bytes.
pub open spec fn be_u16(bytes: Seq<u8>, at: int) -> int {
    bytes[at] * 256 + bytes[at + 1]
}

/// A big-endian number of four bytes.
pub open spec fn be_u32(bytes: Seq<u8>, at: int) -> int {
    be_u16(bytes, at) * 65_536 + be_u16(bytes, at + 2)
}

pub fn read_be_u16(bytes: &[u8], offset: usize) -> (value: Result<u16, FlutzError>)
    ensures
        match value {
            Ok(v) => offset + 2 <= bytes@.len() && v == be_u16(bytes@, offset as int),
            Err(e) => offset + 2 > bytes@.len() && e@ == (
                ErrorKind::InvalidInput,
                "truncated MIDI u16"@,
            ),
        },
{
    if bytes.len() < 2 || offset > bytes.len() - 2 {
        return Err(FlutzError::InvalidInput("truncated MIDI u16".to_owned()));
    }
    Ok(bytes[offset] as u16 * 256 + bytes[offset + 1] as u16)
}

pub fn read_be_u32(bytes: &[u8], offset: usize) -> (value: Result<u32, FlutzError>)
    ensures
        match value {
            Ok(v) => offset + 4 <= bytes@.len() && v == be_u32(bytes@, offset as int),
            Err(e) => offset + 4 > bytes@.len() && e@ == (
                ErrorKind::InvalidInput,
                "truncated MIDI u32"@,
            ),
        },
{
    if bytes.len() < 4 || offset > bytes.len() - 4 {
        return Err(FlutzError::InvalidInput("truncated MIDI u32".to_owned()));
    }
    let high: u32 = bytes[offset] as u32 * 256 + bytes[offset + 1] as u32;
    let low: u32 = bytes[offset + 2] as u32 * 256 + bytes[offset + 3] as u32;
    Ok(high * 65_536 + low)
}

/// Whether the four bytes at `at` are the given ones.
pub open spec fn tag_at(bytes: Seq<u8>, at: int, tag: Seq<u8>) -> bool {
    at + 4 <= bytes.len() && bytes.subrange(at, at + 4) == tag
}

fn has_tag(bytes: &[u8], at: usize, a: u8, b: u8, c: u8, d: u8) -> (found: bool)
    ensures
        found == tag_at(bytes@, at as int, seq![a, b, c, d]),
{
    if bytes.len() < 4 || at > bytes.len() - 4 {
        return false;
    }
    let found = bytes[at] == a && bytes[at + 1] == b && bytes[at + 2] == c && bytes[at + 3] == d;
    proof {
        let piece = bytes@.subrange(at as int, at + 4);
        if found {
            assert(piece =~= seq![a, b, c, d]);
        } else {
            assert(piece[0] != a || piece[1] != b || piece[2] != c || piece[3] != d);
            assert(seq![a, b, c, d][0] == a && seq![a, b, c, d][1] == b && seq![a, b, c, d][2] == c
                && seq![a, b, c, d][3] == d);
        }
    }
    found
}

/// `MThd`
pub open spec fn header_tag() -> Seq<u8> {
    seq![0x4du8, 0x54, 0x68, 0x64]
}

/// `MTrk`
pub open spec fn track_tag() -> Seq<u8> {
    seq![0x4du8, 0x54, 0x72, 0x6b]
}

/// The marker counts after up to `tracks` track chunks from position `at` on, up to the
/// last or to an error; a file may end early, and a chunk may be cut off by its end.
pub open spec fn chunk_markers(
    bytes: Seq<u8>,
    at: int,
    tracks: nat,
    counts: MarkerCounts,
) -> (MarkerCounts, Option<ScanError>)
    decreases tracks,
{
    if tracks == 0 || at + 8 > bytes.len() {
        (counts, None)
    } else if !tag_at(bytes, at, track_tag()) {
        (counts, Some(ScanError::NoTrack))
    } else {
        let end = min_of(at + 8 + be_u32(bytes, at + 4), bytes.len() as int);
        let (counted, error) = track_markers(bytes.subrange(at + 8, end), 0, None, counts);
        match error {
            None => chunk_markers(bytes, end, (tracks - 1) as nat, counted),
            Some(e) => (counted, Some(e)),
        }
    }
}

/// The marker counts of a MIDI file, up to its end or to an error.
pub open spec fn file_markers(bytes: Seq<u8>) -> (MarkerCounts, Option<ScanError>) {
    if bytes.len() < 14 || !tag_at(bytes, 0, header_tag()) {
        (no_markers(), Some(ScanError::NoHeader))
    } else if be_u32(bytes, 4) < 6 || bytes.len() < 8 + be_u32(bytes, 4) {
        (no_markers(), Some(ScanError::BadHeaderLength))
    } else {
        chunk_markers(bytes, 8 + be_u32(bytes, 4), be_u16(bytes, 10) as nat, no_markers())
    }
}

proof fn lemma_chunk_markers_grow(bytes: Seq<u8>, at: int, tracks: nat, counts: MarkerCounts)
    ensures
        chunk_markers(bytes, at, tracks, counts).0.covers(counts),
    decreases tracks,
{
    if tracks > 0 && at + 8 <= bytes.len() && tag_at(bytes, at, track_tag()) {
        let end = min_of(at + 8 + be_u32(bytes, at + 4), bytes.len() as int);
        let track = bytes.subrange(at + 8, end);
        lemma_markers_grow(track, 0, None, counts);
        let (counted, error) = track_markers(track, 0, None, counts);
        if error is None {
            lemma_chunk_markers_grow(bytes, end, (tracks - 1) as nat, counted);
        }
    }
}

/// Checks the chunks of a MIDI file and detects its loop style.
pub fn scan_loop_type(bytes: &[u8]) -> (loop_type: Result<MidiFileLoopType, FlutzError>)
    requires
        file_markers(bytes@).0.fits(),
    ensures
        match file_markers(bytes@) {
            (counts, None) => loop_type is Ok && loop_type->Ok_0 == counts.style(),
            (_, Some(e)) => loop_type is Err && loop_type->Err_0@ == (
                ErrorKind::InvalidInput,
                scan_message(e),
            ),
        },
{
    if bytes.len() < 14 || !has_tag(bytes, 0, 0x4d, 0x54, 0x68, 0x64) {
        return Err(FlutzError::InvalidInput("missing standard MIDI MThd header".to_owned()));
    }
    let header_len: u32 = match read_be_u32(bytes, 4) {
        Ok(value) => value,
        Err(error) => {
            return Err(error);
        },
    };
    if header_len < 6 || (bytes.len() as u64) < 8 + header_len as u64 {
        return Err(FlutzError::InvalidInput("invalid MIDI header length".to_owned()));
    }
    let track_count: u16 = match read_be_u16(bytes, 10) {
        Ok(value) => value,
        Err(error) => {
            return Err(error);
        },
    };
    let mut offset: usize = (8 + header_len as u64) as usize;
    let mut loop_markers = LoopMarkerStats::default();
    let mut left: u16 = track_count;
    while left > 0 && bytes.len() - offset >= 8
        invariant
            offset <= bytes@.len(),
            file_markers(bytes@).0.fits(),
            file_markers(bytes@) == chunk_markers(
                bytes@,
                offset as int,
                left as nat,
                loop_markers@,
            ),
        decreases left,
    {
        if !has_tag(bytes, offset, 0x4d, 0x54, 0x72, 0x6b) {
            return Err(FlutzError::InvalidInput("expected MIDI MTrk chunk".to_owned()));
        }
        let track_len: u32 = match read_be_u32(bytes, offset + 4) {
            Ok(value) => value,
            Err(error) => {
                return Err(error);
            },
        };
        let start: usize = offset + 8;
        let end: usize = if track_len as u64 >= (bytes.len() - start) as u64 {
            bytes.len()
        } else {
            start + track_len as usize
        };
        let track = slice_subrange(bytes, start, end);
        proof {
            let (counted, error) = track_markers(track@, 0, None, loop_markers@);
            if error is None {
                lemma_chunk_markers_grow(bytes@, end as int, (left - 1) as nat, counted);
            }
        }
        match analyze_track(track, &mut loop_markers) {
            Ok(()) => {},
            Err(error) => {
                return Err(error);
            },
        }
        offset = end;
        left = left - 1;
    }
    Ok(loop_markers.detected_loop_type())
}

/// A track adds at most one to each count for each of its bytes.
proof fn lemma_markers_bounded(
    track: Seq<u8>,
    at: int,
    running: Option<u8>,
    counts: MarkerCounts,
    n: int,
)
    requires
        0 <= at <= track.len(),
        counts.at_most(n),
    ensures
        track_markers(track, at, running, counts).0.at_most(n + track.len() - at),
    decreases track.len() - at,
{
    if at < track.len() {
        lemma_step_advances(track, at, running);
        match track_step(track, at, running) {
            TrackStep::Event(next, status, controller) => {
                let counted = match controller {
                    Some(c) => counts.with_cc(c),
                    None => counts,
                };
                lemma_markers_bounded(track, next, status, counted, n + 1);
            },
            _ => {},
        }
    }
}

proof fn lemma_chunk_markers_bounded(bytes: Seq<u8>, at: int, tracks: nat, counts: MarkerCounts)
    requires
        0 <= at <= bytes.len(),
        counts.at_most(at),
    ensures
        chunk_markers(bytes, at, tracks, counts).0.at_most(bytes.len() as int),
    decreases tracks,
{
    if tracks > 0 && at + 8 <= bytes.len() && tag_at(bytes, at, track_tag()) {
        let end = min_of(at + 8 + be_u32(bytes, at + 4), bytes.len() as int);
        let track = bytes.subrange(at + 8, end);
        lemma_markers_bounded(track, 0, None, counts, at);
        let (counted, error) = track_markers(track, 0, None, counts);
        if error is None {
            lemma_chunk_markers_bounded(bytes, end, (tracks - 1) as nat, counted);
        }
    }
}

/// No marker is counted more often than a file has bytes, so the markers of a file of
/// up to four gigabytes can be counted.
pub proof fn markers_are_bounded_by_the_file(bytes: Seq<u8>)
    ensures
        file_markers(bytes).0.at_most(bytes.len() as int),
        bytes.len() <= u32::MAX ==> file_markers(bytes).0.fits(),
{
    if bytes.len() >= 14 && tag_at(bytes, 0, header_tag()) && be_u32(bytes, 4) >= 6 && bytes.len()
        >= 8 + be_u32(bytes, 4) {
        lemma_chunk_markers_bounded(
            bytes,
            8 + be_u32(bytes, 4),
            be_u16(bytes, 10) as nat,
            no_markers(),
        );
    }
}

/// The system that a SysEx event switches to.
#[derive(Debug, Copy, Clone, PartialEq, Eq, Structural)]
pub enum MidiSystemMode {
    GeneralMidi,
    GeneralMidi2,
    RolandGs,
    YamahaXg,
}

impl MidiSystemMode {
    pub open spec fn label(self) -> Seq<char> {
        match self {
            MidiSystemMode::GeneralMidi => "general-midi"@,
            MidiSystemMode::GeneralMidi2 => "general-midi-2"@,
            MidiSystemMode::RolandGs => "roland-gs"@,
            MidiSystemMode::YamahaXg => "yamaha-xg"@,
        }
    }
}

pub fn midi_system_mode_label(mode: MidiSystemMode) -> (label: &'static str)
    ensures
        label@ == mode.label(),
{
    match mode {
        MidiSystemMode::GeneralMidi => "general-midi",
        MidiSystemMode::GeneralMidi2 => "general-midi-2",
        MidiSystemMode::RolandGs => "roland-gs",
        MidiSystemMode::YamahaXg => "yamaha-xg",
    }
}

/// A number as a variable length value: seven bits a byte, most significant first, each
/// byte but the last above 127.
pub open spec fn var_len_bytes(n: nat) -> Seq<u8> {
    if n < 128 {
        seq![n as u8]
    } else if n < 16_384 {
        seq![(128 + n / 128) as u8, (n % 128) as u8]
    } else if n < 2_097_152 {
        seq![(128 + n / 16_384) as u8, (128 + n / 128 % 128) as u8, (n % 128) as u8]
    } else {
        seq![
            (128 + n / 2_097_152) as u8,
            (128 + n / 16_384 % 128) as u8,
            (128 + n / 128 % 128) as u8,
            (n % 128) as u8,
        ]
    }
}

/// A variable length value reads back as the number it was written for.
pub proof fn var_len_reads_back(bytes: Seq<u8>, at: int, n: nat)
    requires
        n < 268_435_456,
        0 <= at,
        at + var_len_bytes(n).len() <= bytes.len(),
        forall|i: int|
            0 <= i < var_len_bytes(n).len() ==> bytes[at + i] == #[trigger] var_len_bytes(n)[i],
    ensures
        var_len(bytes, at, 0, 0) == Ok::<(int, int), ScanError>(
            (n as int, at + var_len_bytes(n).len()),
        ),
{
    let code = var_len_bytes(n);
    reveal_with_fuel(var_len, 5);
    assert(bytes[at + 0] == code[0]);
    if n >= 128 {
        assert(bytes[at + 1] == code[1]);
    }
    if n >= 16_384 {
        assert(bytes[at + 2] == code[2]);
    }
    if n >= 2_097_152 {
        assert(bytes[at + 3] == code[3]);
    }
}

/// An event of a track.
pub ghost enum MidiEvent {
    NoteOff(u8, u8, u8),
    NoteOn(u8, u8, u8),
    KeyPressure(u8, u8, u8),
    /// Channel, controller and value.
    ControlChange(u8, u8, u8),
    /// Channel and program.
    ProgramChange(u8, u8),
    /// Channel and pressure.
    ChannelPressure(u8, u8),
    PitchBend(u8, u8, u8),
    /// The kind of a meta event, and its contents.
    Meta(u8, Seq<u8>),
    SysEx(Seq<u8>),
    /// A SysEx event that goes on with another one.
    SysExPart(Seq<u8>),
}

impl MidiEvent {
    /// The status byte of a channel event: its kind and its channel.
    pub open spec fn channel_status(self) -> Option<u8> {
        match self {
            MidiEvent::NoteOff(channel, _, _) => Some((0x80 + channel) as u8),
            MidiEvent::NoteOn(channel, _, _) => Some((0x90 + channel) as u8),
            MidiEvent::KeyPressure(channel, _, _) => Some((0xA0 + channel) as u8),
            MidiEvent::ControlChange(channel, _, _) => Some((0xB0 + channel) as u8),
            MidiEvent::ProgramChange(channel, _) => Some((0xC0 + channel) as u8),
            MidiEvent::ChannelPressure(channel, _) => Some((0xD0 + channel) as u8),
            MidiEvent::PitchBend(channel, _, _) => Some((0xE0 + channel) as u8),
            _ => None,
        }
    }

    /// What follows the status byte.
    pub open spec fn contents(self) -> Seq<u8> {
        match self {
            MidiEvent::NoteOff(_, a, b) => seq![a, b],
            MidiEvent::NoteOn(_, a, b) => seq![a, b],
            MidiEvent::KeyPressure(_, a, b) => seq![a, b],
            MidiEvent::ControlChange(_, a, b) => seq![a, b],
            MidiEvent::ProgramChange(_, a) => seq![a],
            MidiEvent::ChannelPressure(_, a) => seq![a],
            MidiEvent::PitchBend(_, a, b) => seq![a, b],
            MidiEvent::Meta(kind, data) => seq![kind] + var_len_bytes(data.len()) + data,
            MidiEvent::SysEx(data) => var_len_bytes(data.len()) + data,
            MidiEvent::SysExPart(data) => var_len_bytes(data.len()) + data,
        }
    }

    /// The status byte.
    pub open spec fn status(self) -> u8 {
        match self.channel_status() {
            Some(status) => status,
            None => match self {
                MidiEvent::Meta(_, _) => 0xFF,
                MidiEvent::SysEx(_) => 0xF0,
                _ => 0xF7,
            },
        }
    }

    /// There are 16 channels, data bytes are below 128, and lengths can be written.
    pub open spec fn is_valid(self) -> bool {
        match self {
            MidiEvent::NoteOff(channel, a, b) => channel < 16 && a < 128 && b < 128,
            MidiEvent::NoteOn(channel, a, b) => channel < 16 && a < 128 && b < 128,
            MidiEvent::KeyPressure(channel, a, b) => channel < 16 && a < 128 && b < 128,
            MidiEvent::ControlChange(channel, a, b) => channel < 16 && a < 128 && b < 128,
            MidiEvent::ProgramChange(channel, a) => channel < 16 && a < 128,
            MidiEvent::ChannelPressure(channel, a) => channel < 16 && a < 128,
            MidiEvent::PitchBend(channel, a, b) => channel < 16 && a < 128 && b < 128,
            MidiEvent::Meta(_, data) => data.len() < 268_435_456,
            MidiEvent::SysEx(data) => data.len() < 268_435_456,
            MidiEvent::SysExPart(data) => data.len() < 268_435_456,
        }
    }
}

/// An event with the time that passes before it. The status byte of a channel event may be
/// left out where the last channel event had the same.
pub ghost struct TimedEvent {
    pub delta: nat,
    pub omits_status: bool,
    pub event: MidiEvent,
}

impl TimedEvent {
    pub open spec fn bytes(self) -> Seq<u8> {
        var_len_bytes(self.delta) + (if self.omits_status {
            Seq::<u8>::empty()
        } else {
            seq![self.event.status()]
        }) + self.event.contents()
    }
}

/// The bytes of a track.
pub open spec fn track_bytes(events: Seq<TimedEvent>) -> Seq<u8>
    decreases events.len(),
{
    if events.len() == 0 {
        Seq::empty()
    } else {
        events[0].bytes() + track_bytes(events.skip(1))
    }
}

/// The events can be written one after the other, behind a channel event with the given
/// status byte.
pub open spec fn can_be_written(events: Seq<TimedEvent>, running: Option<u8>) -> bool
    decreases events.len(),
{
    events.len() > 0 ==> {
        let first = events[0];
        let status = first.event.channel_status();
        &&& first.event.is_valid()
        &&& first.delta < 268_435_456
        &&& first.omits_status ==> status is Some && status == running
        &&& can_be_written(
            events.skip(1),
            if status is Some {
                status
            } else {
                running
            },
        )
    }
}

/// How many of the events change a controller.
pub open spec fn changes_of(events: Seq<TimedEvent>, controller: u8) -> nat
    decreases events.len(),
{
    if events.len() == 0 {
        0
    } else {
        changes_of(events.skip(1), controller) + match events[0].event {
            MidiEvent::ControlChange(_, changed, _) => if changed == controller {
                1nat
            } else {
                0nat
            },
            _ => 0nat,
        }
    }
}

proof fn lemma_event_step(
    track: Seq<u8>,
    at: int,
    running: Option<u8>,
    event: TimedEvent,
)
    requires
        0 <= at,
        at + event.bytes().len() <= track.len(),
        forall|i: int|
            0 <= i < event.bytes().len() ==> track[at + i] == #[trigger] event.bytes()[i],
        event.event.is_valid(),
        event.delta < 268_435_456,
        event.omits_status ==> event.event.channel_status() is Some
            && event.event.channel_status() == running,
    ensures
        track_step(track, at, running) == TrackStep::Event(
            at + event.bytes().len(),
            if event.event.channel_status() is Some {
                event.event.channel_status()
            } else {
                running
            },
            match event.event {
                MidiEvent::ControlChange(_, controller, _) => Some(controller),
                _ => None,
            },
        ),
        event.bytes().len() > 0,
{
    let code = event.bytes();
    let head = var_len_bytes(event.delta);
    let contents = event.event.contents();
    assert forall|i: int| 0 <= i < head.len() implies track[at + i] == #[trigger] head[i] by {
        assert(code[i] == head[i]);
    }
    var_len_reads_back(track, at, event.delta);
    let start = at + head.len();
    let body = if event.omits_status {
        start
    } else {
        start + 1
    };
    let shift = body - at;
    assert(code.len() == shift + contents.len());
    assert forall|i: int| 0 <= i < contents.len() implies track[body + i]
        == #[trigger] contents[i] by {
        assert(code[shift + i] == contents[i]);
        assert(track[at + (shift + i)] == code[shift + i]);
    }
    if !event.omits_status {
        assert(code[head.len() as int] == event.event.status());
        assert(track[at + head.len()] == event.event.status());
    }
    match event.event {
        MidiEvent::Meta(kind, data) => {
            let size = var_len_bytes(data.len());
            assert(track[body + 0] == contents[0]);
            assert forall|i: int| 0 <= i < size.len() implies track[body + 1 + i]
                == #[trigger] size[i] by {
                assert(contents[1 + i] == size[i]);
                assert(track[body + (1 + i)] == contents[1 + i]);
            }
            var_len_reads_back(track, body + 1, data.len());
        },
        MidiEvent::SysEx(data) => {
            let size = var_len_bytes(data.len());
            assert forall|i: int| 0 <= i < size.len() implies track[body + i]
                == #[trigger] size[i] by {
                assert(contents[i] == size[i]);
            }
            var_len_reads_back(track, body, data.len());
        },
        MidiEvent::SysExPart(data) => {
            let size = var_len_bytes(data.len());
            assert forall|i: int| 0 <= i < size.len() implies track[body + i]
                == #[trigger] size[i] by {
                assert(contents[i] == size[i]);
            }
            var_len_reads_back(track, body, data.len());
        },
        _ => {
            assert(track[body + 0] == contents[0]);
        },
    }
}

proof fn lemma_scan_of_events(
    track: Seq<u8>,
    at: int,
    running: Option<u8>,
    counts: MarkerCounts,
    events: Seq<TimedEvent>,
)
    requires
        0 <= at <= track.len(),
        track.skip(at) == track_bytes(events),
        can_be_written(events, running),
    ensures
        track_markers(track, at, running, counts) == (
            MarkerCounts {
                rpg_start: counts.rpg_start + changes_of(events, 111),
                im_start: counts.im_start + changes_of(events, 110),
                im_end: counts.im_end + changes_of(events, 111),
                ff_start: counts.ff_start + changes_of(events, 116),
                ff_end: counts.ff_end + changes_of(events, 117),
            },
            None::<ScanError>,
        ),
    decreases events.len(),
{
    let rest = track.skip(at);
    if events.len() > 0 {
        let first = events[0];
        let code = first.bytes();
        assert(rest == code + track_bytes(events.skip(1)));
        assert forall|i: int| 0 <= i < code.len() implies track[at + i] == #[trigger] code[i] by {
            assert(rest[i] == code[i]);
        }
        assert(rest.len() == code.len() + track_bytes(events.skip(1)).len());
        lemma_event_step(track, at, running, first);
        let next = at + code.len();
        assert(track.skip(next) =~= track_bytes(events.skip(1))) by {
            assert(track.skip(next).len() == track_bytes(events.skip(1)).len());
            assert forall|i: int| 0 <= i < track.skip(next).len() implies track.skip(next)[i]
                == track_bytes(events.skip(1))[i] by {
                assert(rest[code.len() + i] == track_bytes(events.skip(1))[i]);
            }
        }
        let status = first.event.channel_status();
        let counted = match first.event {
            MidiEvent::ControlChange(_, controller, _) => counts.with_cc(controller),
            _ => counts,
        };
        lemma_scan_of_events(
            track,
            next,
            if status is Some {
                status
            } else {
                running
            },
            counted,
            events.skip(1),
        );
        assert(at < track.len());
        assert(track_markers(track, at, running, counts) == track_markers(
            track,
            next,
            if status is Some {
                status
            } else {
                running
            },
            counted,
        ));
        reveal_with_fuel(changes_of, 2);
    } else {
        assert(rest.len() == 0);
        assert(at == track.len());
    }
}

/// Scanning a track succeeds whatever events it holds, and counts exactly the changes of the
/// controllers that mark a loop: 110 and 111 start and end one of one style, 111 starts one
/// of another, and 116 and 117 start and end one of the third. No other event counts, and
/// none hides another.
pub proof fn tracks_are_scanned_event_by_event(events: Seq<TimedEvent>, counts: MarkerCounts)
    requires
        can_be_written(events, None),
    ensures
        ({
            let (found, error) = track_markers(track_bytes(events), 0, None, counts);
            &&& error is None
            &&& found.im_start == counts.im_start + changes_of(events, 110)
            &&& found.im_end == counts.im_end + changes_of(events, 111)
            &&& found.rpg_start == counts.rpg_start + changes_of(events, 111)
            &&& found.ff_start == counts.ff_start + changes_of(events, 116)
            &&& found.ff_end == counts.ff_end + changes_of(events, 117)
        }),
{
    let track = track_bytes(events);
    assert(track.skip(0) =~= track);
    lemma_scan_of_events(track, 0, None, counts, events);
}

/// A number of two bytes, most significant first.
pub open spec fn be_bytes_u16(n: nat) -> Seq<u8> {
    seq![(n / 256) as u8, (n % 256) as u8]
}

/// A number of four bytes, most significant first.
pub open spec fn be_bytes_u32(n: nat) -> Seq<u8> {
    seq![
        (n / 16_777_216) as u8,
        (n / 65_536 % 256) as u8,
        (n / 256 % 256) as u8,
        (n % 256) as u8,
    ]
}

/// The chunks of tracks: `MTrk`, the length and the bytes of each.
pub open spec fn chunk_bytes(tracks: Seq<Seq<TimedEvent>>) -> Seq<u8>
    decreases tracks.len(),
{
    if tracks.len() == 0 {
        Seq::empty()
    } else {
        seq![0x4du8, 0x54, 0x72, 0x6b] + be_bytes_u32(track_bytes(tracks[0]).len()) + track_bytes(
            tracks[0],
        ) + chunk_bytes(tracks.skip(1))
    }
}

/// A MIDI file: `MThd`, the length of the header, its format, the number of tracks and the
/// division of a quarter note, and the chunks of the tracks.
pub open spec fn midi_file_bytes(format: nat, division: nat, tracks: Seq<Seq<TimedEvent>>) -> Seq<
    u8,
> {
    seq![0x4du8, 0x54, 0x68, 0x64, 0, 0, 0, 6] + be_bytes_u16(format) + be_bytes_u16(tracks.len())
        + be_bytes_u16(division) + chunk_bytes(tracks)
}

/// How often a controller is changed in some tracks.
pub open spec fn changes_in(tracks: Seq<Seq<TimedEvent>>, controller: u8) -> nat
    decreases tracks.len(),
{
    if tracks.len() == 0 {
        0
    } else {
        changes_of(tracks[0], controller) + changes_in(tracks.skip(1), controller)
    }
}

/// The tracks can be written into a file.
pub open spec fn tracks_fit(tracks: Seq<Seq<TimedEvent>>) -> bool {
    forall|i: int|
        0 <= i < tracks.len() ==> can_be_written(#[trigger] tracks[i], None) && track_bytes(
            tracks[i],
        ).len() <= u32::MAX
}

proof fn lemma_chunks_of_tracks(
    bytes: Seq<u8>,
    at: int,
    counts: MarkerCounts,
    tracks: Seq<Seq<TimedEvent>>,
)
    requires
        0 <= at <= bytes.len(),
        bytes.skip(at) == chunk_bytes(tracks),
        tracks_fit(tracks),
    ensures
        chunk_markers(bytes, at, tracks.len(), counts) == (
            MarkerCounts {
                rpg_start: counts.rpg_start + changes_in(tracks, 111),
                im_start: counts.im_start + changes_in(tracks, 110),
                im_end: counts.im_end + changes_in(tracks, 111),
                ff_start: counts.ff_start + changes_in(tracks, 116),
                ff_end: counts.ff_end + changes_in(tracks, 117),
            },
            None::<ScanError>,
        ),
    decreases tracks.len(),
{
    if tracks.len() > 0 {
        let rest = bytes.skip(at);
        let track = track_bytes(tracks[0]);
        let n = track.len();
        let tail = chunk_bytes(tracks.skip(1));
        assert(can_be_written(tracks[0], None));
        assert(rest.len() == 8 + n + tail.len());
        assert forall|i: int| 0 <= i < rest.len() implies bytes[at + i] == #[trigger] rest[i] by {
        }
        assert(bytes.subrange(at, at + 4) =~= track_tag()) by {
            assert(rest[0] == 0x4d && rest[1] == 0x54 && rest[2] == 0x72 && rest[3] == 0x6b);
        }
        assert(be_u32(bytes, at + 4) == n) by {
            assert(rest[4] == be_bytes_u32(n)[0] && rest[5] == be_bytes_u32(n)[1] && rest[6]
                == be_bytes_u32(n)[2] && rest[7] == be_bytes_u32(n)[3]);
            assert(bytes[at + 4] == rest[4] && bytes[at + 5] == rest[5] && bytes[at + 6] == rest[6]
                && bytes[at + 7] == rest[7]);
            lemma_be_u32_reads_back(n);
        }
        let end = at + 8 + n;
        assert(bytes.subrange(at + 8, end) =~= track) by {
            assert forall|i: int| 0 <= i < n implies bytes[at + 8 + i] == track[i] by {
                assert(rest[8 + i] == track[i]);
            }
        }
        assert(bytes.skip(end) =~= tail) by {
            assert forall|i: int| 0 <= i < tail.len() implies bytes[end + i] == tail[i] by {
                assert(rest[8 + n + i] == tail[i]);
            }
        }
        tracks_are_scanned_event_by_event(tracks[0], counts);
        let (counted, error) = track_markers(track, 0, None, counts);
        assert forall|i: int| 0 <= i < tracks.skip(1).len() implies can_be_written(
            #[trigger] tracks.skip(1)[i],
            None,
        ) && track_bytes(tracks.skip(1)[i]).len() <= u32::MAX by {
            assert(tracks.skip(1)[i] == tracks[i + 1]);
        }
        lemma_chunks_of_tracks(bytes, end, counted, tracks.skip(1));
    }
}

proof fn lemma_be_u32_reads_back(n: nat)
    requires
        n <= u32::MAX,
    ensures
        ({
            let code = be_bytes_u32(n);
            (code[0] * 256 + code[1]) * 65_536 + (code[2] * 256 + code[3]) == n
        }),
{
}

/// Scanning a MIDI file succeeds, and counts the changes of the controllers that mark a
/// loop in all its tracks.
pub proof fn files_are_scanned_track_by_track(
    format: nat,
    division: nat,
    tracks: Seq<Seq<TimedEvent>>,
)
    requires
        tracks.len() <= u16::MAX,
        tracks_fit(tracks),
    ensures
        ({
            let (found, error) = file_markers(midi_file_bytes(format, division, tracks));
            &&& error is None
            &&& found.im_start == changes_in(tracks, 110)
            &&& found.im_end == changes_in(tracks, 111)
            &&& found.rpg_start == changes_in(tracks, 111)
            &&& found.ff_start == changes_in(tracks, 116)
            &&& found.ff_end == changes_in(tracks, 117)
        }),
{
    let bytes = midi_file_bytes(format, division, tracks);
    assert(bytes.len() == 14 + chunk_bytes(tracks).len());
    assert(bytes.subrange(0, 4) =~= header_tag());
    assert(bytes[4] == 0 && bytes[5] == 0 && bytes[6] == 0 && bytes[7] == 6);
    assert(be_u32(bytes, 4) == 6);
    assert(bytes[10] == be_bytes_u16(tracks.len())[0]);
    assert(bytes[11] == be_bytes_u16(tracks.len())[1]);
    assert(be_u16(bytes, 10) == tracks.len());
    assert(bytes.skip(14) =~= chunk_bytes(tracks));
    lemma_chunks_of_tracks(bytes, 14, no_markers(), tracks);
}

/// The style of a file by the controllers that it changes: none of the four is no style,
/// 111 alone is one style, 110 with 111 another, 116 with 117 the third, and where two
/// styles have both their marks the one with more pairs counts.
pub proof fn markers_tell_the_style(counts: MarkerCounts)
    requires
        counts.rpg_start == counts.im_end,
    ensures
        counts == no_markers() ==> counts.style() is LoopPoint,
        counts.im_end > 0 && counts.im_start == 0 && (counts.ff_start == 0 || counts.ff_end == 0)
            ==> counts.style() == MidiFileLoopType::RpgMaker,
        counts.im_end > 0 && counts.im_start > 0 && (counts.ff_start == 0 || counts.ff_end == 0)
            ==> counts.style() == MidiFileLoopType::IncredibleMachine,
        counts.ff_start > 0 && counts.ff_end > 0 && (counts.im_start == 0 || counts.im_end == 0)
            ==> counts.style() == MidiFileLoopType::FinalFantasy,
        counts.im_end == 0 && (counts.ff_start == 0 || counts.ff_end == 0)
            ==> counts.style() is LoopPoint,
        counts.im_start > 0 && counts.im_end > 0 && counts.im_start >= counts.ff_start
            && counts.im_end >= counts.ff_start ==> counts.style()
            == MidiFileLoopType::IncredibleMachine,
        counts.ff_start > counts.im_start && counts.ff_end > counts.im_start ==> counts.style()
            == MidiFileLoopType::FinalFantasy,
{
}

} // verus!
