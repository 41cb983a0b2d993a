//! The render debug trace: the diagnostics of a MIDI scan and the errors of the
//! renderer, as lines of JSON.
use crate::bounded::{newest, push_bounded};
use crate::json::{array_of, json_option_string, json_string_array, json_u8_array};
use crate::json::{object_of, optional_quoted, optional_text, quoted, truth};
use crate::json::{no_members, JsonArray, JsonObject};
use crate::numbers::u64_cap;
use crate::playback::midi_scan::{loop_type_label, midi_system_mode_label};
use crate::playback::midi_scan::{MidiFileLoopType, MidiSystemMode};
use crate::text::{ascii_lowered, clone_texts, decimal, texts, to_ascii_lower};
use std::collections::VecDeque;
use vstd::prelude::*;

verus! {

/// A channel that a SysEx event gives another role.
#[derive(Debug)]
pub struct PlaybackMidiChannelRoleChange {
    pub channel: u8,
    pub role: String,
}

/// A SysEx event of a MIDI file.
#[derive(Debug)]
pub struct PlaybackMidiSysexEvent {
    pub index: usize,
    pub status: u8,
    pub byte_len: usize,
    pub manufacturer_id: String,
    pub recognized: bool,
    pub system_mode: Option<String>,
    pub channel_role: Option<PlaybackMidiChannelRoleChange>,
    pub warning: Option<String>,
    pub bytes_hex: String,
}

/// What a scan of a MIDI file found.
#[derive(Debug)]
pub struct PlaybackMidiScanDiagnostics {
    pub loop_style: String,
    pub system_modes: Vec<String>,
    pub percussion_channels: Vec<u8>,
    pub warnings: Vec<String>,
    pub sysex_event_count: usize,
    pub recognized_sysex_event_count: usize,
    pub sysex_events: Vec<PlaybackMidiSysexEvent>,
}

/// An error of the renderer.
#[derive(Debug)]
pub struct RenderErrorTraceEvent {
    pub source: String,
    pub failure_kind: String,
    pub detail: String,
    pub backtrace: Option<String>,
    pub frames_requested: usize,
    pub midi_source: Option<String>,
    pub soundfont_ids: Vec<String>,
    pub midi_scan: PlaybackMidiScanDiagnostics,
}

/// A SysEx event as the MIDI parser reports it. The role of a channel is the
/// name of the role.
#[derive(Debug)]
pub struct InterpretedSysexEvent {
    pub index: usize,
    pub status: u8,
    pub byte_len: usize,
    pub manufacturer_id: String,
    pub recognized: bool,
    pub system_mode: Option<MidiSystemMode>,
    pub channel_role: Option<(u8, String)>,
    pub warning: Option<String>,
    pub bytes_hex: String,
}

/// What the MIDI parser reports about the system events of a file.
#[derive(Debug)]
pub struct MidiInterpretation {
    pub system_modes: Vec<MidiSystemMode>,
    pub percussion_channels: Vec<u8>,
    pub warnings: Vec<String>,
    pub sysex_event_count: usize,
    pub recognized_sysex_event_count: usize,
    pub sysex_events: Vec<InterpretedSysexEvent>,
}

/// The contents of a SysEx event.
pub ghost struct SysexView {
    pub index: usize,
    pub status: u8,
    pub byte_len: usize,
    pub manufacturer_id: Seq<char>,
    pub recognized: bool,
    pub system_mode: Option<Seq<char>>,
    pub channel_role: Option<(u8, Seq<char>)>,
    pub warning: Option<Seq<char>>,
    pub bytes_hex: Seq<char>,
}

/// The contents of scan diagnostics.
pub ghost struct ScanView {
    pub loop_style: Seq<char>,
    pub system_modes: Seq<Seq<char>>,
    pub percussion_channels: Seq<u8>,
    pub warnings: Seq<Seq<char>>,
    pub sysex_event_count: usize,
    pub recognized_sysex_event_count: usize,
    pub sysex_events: Seq<SysexView>,
}

impl View for PlaybackMidiSysexEvent {
    type V = SysexView;

    open spec fn view(&self) -> SysexView {
        SysexView {
            index: self.index,
            status: self.status,
            byte_len: self.byte_len,
            manufacturer_id: self.manufacturer_id@,
            recognized: self.recognized,
            system_mode: optional_text(self.system_mode),
            channel_role: match self.channel_role {
                Some(change) => Some((change.channel, change.role@)),
                None => None,
            },
            warning: optional_text(self.warning),
            bytes_hex: self.bytes_hex@,
        }
    }
}

pub open spec fn sysex_views(events: Seq<PlaybackMidiSysexEvent>) -> Seq<SysexView> {
    events.map_values(|event: PlaybackMidiSysexEvent| event@)
}

impl View for PlaybackMidiScanDiagnostics {
    type V = ScanView;

    open spec fn view(&self) -> ScanView {
        ScanView {
            loop_style: self.loop_style@,
            system_modes: texts(self.system_modes@),
            percussion_channels: self.percussion_channels@,
            warnings: texts(self.warnings@),
            sysex_event_count: self.sysex_event_count,
            recognized_sysex_event_count: self.recognized_sysex_event_count,
            sysex_events: sysex_views(self.sysex_events@),
        }
    }
}

/// The event with the labels of its mode and the lower-case name of its role.
pub open spec fn labelled_event(event: InterpretedSysexEvent) -> SysexView {
    SysexView {
        index: event.index,
        status: event.status,
        byte_len: event.byte_len,
        manufacturer_id: event.manufacturer_id@,
        recognized: event.recognized,
        system_mode: match event.system_mode {
            Some(mode) => Some(mode.label()),
            None => None,
        },
        channel_role: match event.channel_role {
            Some((channel, role)) => Some((channel, ascii_lowered(role@))),
            None => None,
        },
        warning: optional_text(event.warning),
        bytes_hex: event.bytes_hex@,
    }
}

/// The diagnostics of a file with a loop style and an interpretation.
pub open spec fn scan_of(loop_type: MidiFileLoopType, interpretation: MidiInterpretation) -> ScanView {
    ScanView {
        loop_style: loop_type.label(),
        system_modes: interpretation.system_modes@.map_values(|mode: MidiSystemMode| mode.label()),
        percussion_channels: interpretation.percussion_channels@,
        warnings: texts(interpretation.warnings@),
        sysex_event_count: interpretation.sysex_event_count,
        recognized_sysex_event_count: interpretation.recognized_sysex_event_count,
        sysex_events: interpretation.sysex_events@.map_values(
            |event: InterpretedSysexEvent| labelled_event(event),
        ),
    }
}

fn clone_optional(value: &Option<String>) -> (copy: Option<String>)
    ensures
        optional_text(copy) == optional_text(*value),
{
    match value {
        Some(text) => Some(text.clone()),
        None => None,
    }
}

fn label_event(event: &InterpretedSysexEvent) -> (labelled: PlaybackMidiSysexEvent)
    ensures
        labelled@ == labelled_event(*event),
{
    PlaybackMidiSysexEvent {
        index: event.index,
        status: event.status,
        byte_len: event.byte_len,
        manufacturer_id: event.manufacturer_id.clone(),
        recognized: event.recognized,
        system_mode: match event.system_mode {
            Some(mode) => Some(midi_system_mode_label(mode).to_owned()),
            None => None,
        },
        channel_role: match &event.channel_role {
            Some(change) => Some(
                PlaybackMidiChannelRoleChange {
                    channel: change.0,
                    role: to_ascii_lower(change.1.as_str()),
                },
            ),
            None => None,
        },
        warning: clone_optional(&event.warning),
        bytes_hex: event.bytes_hex.clone(),
    }
}

impl PlaybackMidiScanDiagnostics {
    pub fn from_parts(
        loop_type: MidiFileLoopType,
        interpretation: &MidiInterpretation,
    ) -> (diagnostics: Self)
        ensures
            diagnostics@ == scan_of(loop_type, *interpretation),
    {
        let ghost want = scan_of(loop_type, *interpretation);
        let mut system_modes: Vec<String> = Vec::new();
        let mut i: usize = 0;
        while i < interpretation.system_modes.len()
            invariant
                i <= interpretation.system_modes.len(),
                want == scan_of(loop_type, *interpretation),
                texts(system_modes@) == want.system_modes.take(i as int),
            decreases interpretation.system_modes.len() - i,
        {
            let ghost before = system_modes@;
            system_modes.push(midi_system_mode_label(interpretation.system_modes[i]).to_owned());
            i = i + 1;
            assert(texts(system_modes@) =~= texts(before).push(system_modes@.last()@));
            assert(texts(system_modes@) =~= want.system_modes.take(i as int));
        }
        assert(texts(system_modes@) =~= want.system_modes);
        let mut sysex_events: Vec<PlaybackMidiSysexEvent> = Vec::new();
        let mut k: usize = 0;
        while k < interpretation.sysex_events.len()
            invariant
                k <= interpretation.sysex_events.len(),
                want == scan_of(loop_type, *interpretation),
                sysex_views(sysex_events@) == want.sysex_events.take(k as int),
            decreases interpretation.sysex_events.len() - k,
        {
            let ghost before = sysex_events@;
            sysex_events.push(label_event(&interpretation.sysex_events[k]));
            k = k + 1;
            assert(sysex_views(sysex_events@) =~= sysex_views(before).push(
                sysex_events@.last()@,
            ));
            assert(sysex_views(sysex_events@) =~= want.sysex_events.take(k as int));
        }
        assert(sysex_views(sysex_events@) =~= want.sysex_events);
        let percussion_channels = interpretation.percussion_channels.clone();
        assert(percussion_channels@ =~= interpretation.percussion_channels@);
        PlaybackMidiScanDiagnostics {
            loop_style: loop_type_label(loop_type).to_owned(),
            system_modes,
            percussion_channels,
            warnings: clone_texts(&interpretation.warnings),
            sysex_event_count: interpretation.sysex_event_count,
            recognized_sysex_event_count: interpretation.recognized_sysex_event_count,
            sysex_events,
        }
    }
}

/// The JSON of a role change, or `null`.
pub open spec fn role_json(role: Option<(u8, Seq<char>)>) -> Seq<char> {
    match role {
        Some((channel, name)) => object_of(
            no_members().push(("channel"@, decimal(channel as nat))).push(("role"@, quoted(name))),
        ),
        None => "null"@,
    }
}

/// The JSON of a SysEx event.
pub open spec fn sysex_json(event: SysexView) -> Seq<char> {
    object_of(
        no_members()
            .push(("index"@, decimal(event.index as nat)))
            .push(("status"@, decimal(event.status as nat)))
            .push(("byte_len"@, decimal(event.byte_len as nat)))
            .push(("manufacturer_id"@, quoted(event.manufacturer_id)))
            .push(("recognized"@, truth(event.recognized)))
            .push(("system_mode"@, optional_quoted(event.system_mode)))
            .push(("channel_role"@, role_json(event.channel_role)))
            .push(("warning"@, optional_quoted(event.warning)))
            .push(("bytes_hex"@, quoted(event.bytes_hex))),
    )
}

/// The JSON of scan diagnostics.
pub open spec fn scan_json(scan: ScanView) -> Seq<char> {
    object_of(
        no_members()
            .push(("loop_style"@, quoted(scan.loop_style)))
            .push(("system_modes"@, array_of(scan.system_modes.map_values(|value: Seq<char>| quoted(value)))))
            .push(("percussion_channels"@, array_of(scan.percussion_channels.map_values(|c: u8| decimal(c as nat)))))
            .push(("warnings"@, array_of(scan.warnings.map_values(|value: Seq<char>| quoted(value)))))
            .push(("sysex_event_count"@, decimal(scan.sysex_event_count as nat)))
            .push(("recognized_sysex_event_count"@, decimal(scan.recognized_sysex_event_count as nat)))
            .push(("sysex_events"@, array_of(scan.sysex_events.map_values(|event: SysexView| sysex_json(event))))),
    )
}

pub fn json_channel_role(role: &Option<PlaybackMidiChannelRoleChange>) -> (text: String)
    ensures
        text@ == role_json(
            match *role {
                Some(change) => Some((change.channel, change.role@)),
                None => None,
            },
        ),
{
    match role {
        Some(change) => {
            let mut object = JsonObject::new();
            object.number("channel", change.channel as u128);
            object.string("role", change.role.as_str());
            object.finish()
        },
        None => "null".to_owned(),
    }
}

fn sysex_event_json(event: &PlaybackMidiSysexEvent) -> (text: String)
    ensures
        text@ == sysex_json(event@),
{
    let mut object = JsonObject::new();
    object.number("index", event.index as u128);
    object.number("status", event.status as u128);
    object.number("byte_len", event.byte_len as u128);
    object.string("manufacturer_id", event.manufacturer_id.as_str());
    object.boolean("recognized", event.recognized);
    object.raw("system_mode", json_option_string(&event.system_mode).as_str());
    object.raw("channel_role", json_channel_role(&event.channel_role).as_str());
    object.raw("warning", json_option_string(&event.warning).as_str());
    object.string("bytes_hex", event.bytes_hex.as_str());
    object.finish()
}

/// The JSON of scan diagnostics.
pub fn midi_scan_json(diagnostics: &PlaybackMidiScanDiagnostics) -> (text: String)
    ensures
        text@ == scan_json(diagnostics@),
{
    let ghost scan = diagnostics@;
    let ghost all = scan.sysex_events.map_values(|event: SysexView| sysex_json(event));
    let mut events = JsonArray::new();
    let mut i: usize = 0;
    while i < diagnostics.sysex_events.len()
        invariant
            i <= diagnostics.sysex_events.len(),
            scan == diagnostics@,
            all == scan.sysex_events.map_values(|event: SysexView| sysex_json(event)),
            events.wf(),
            events.items() == all.take(i as int),
        decreases diagnostics.sysex_events.len() - i,
    {
        let item = sysex_event_json(&diagnostics.sysex_events[i]);
        events.item(item.as_str());
        i = i + 1;
        assert(events.items() =~= all.take(i as int));
    }
    assert(all.take(i as int) =~= all);
    let mut object = JsonObject::new();
    object.string("loop_style", diagnostics.loop_style.as_str());
    object.raw("system_modes", json_string_array(&diagnostics.system_modes).as_str());
    object.raw("percussion_channels", json_u8_array(&diagnostics.percussion_channels).as_str());
    object.raw("warnings", json_string_array(&diagnostics.warnings).as_str());
    object.number("sysex_event_count", diagnostics.sysex_event_count as u128);
    object.number(
        "recognized_sysex_event_count",
        diagnostics.recognized_sysex_event_count as u128,
    );
    object.raw("sysex_events", events.finish().as_str());
    object.finish()
}

/// The trace line of a scan.
pub open spec fn scan_line(sequence: u64, source: Option<Seq<char>>, scan: ScanView) -> Seq<char> {
    object_of(
        no_members()
            .push(("schema"@, quoted("flutz.render_debug.midi_scan.v1"@)))
            .push(("sequence"@, decimal(sequence as nat)))
            .push(("midi_source"@, optional_quoted(source)))
            .push(("midi_scan"@, scan_json(scan))),
    )
}

pub fn midi_scan_trace_json(
    sequence: u64,
    midi_source: &Option<String>,
    diagnostics: &PlaybackMidiScanDiagnostics,
) -> (text: String)
    ensures
        text@ == scan_line(sequence, optional_text(*midi_source), diagnostics@),
{
    let mut object = JsonObject::new();
    object.string("schema", "flutz.render_debug.midi_scan.v1");
    object.number("sequence", sequence as u128);
    object.raw("midi_source", json_option_string(midi_source).as_str());
    object.raw("midi_scan", midi_scan_json(diagnostics).as_str());
    object.finish()
}

/// The trace line of an error.
pub open spec fn error_line(sequence: u64, event: RenderErrorTraceEvent) -> Seq<char> {
    object_of(
        no_members()
            .push(("schema"@, quoted("flutz.render_debug.error.v1"@)))
            .push(("sequence"@, decimal(sequence as nat)))
            .push(("source"@, quoted(event.source@)))
            .push(("failure_kind"@, quoted(event.failure_kind@)))
            .push(("detail"@, quoted(event.detail@)))
            .push(("backtrace"@, optional_quoted(optional_text(event.backtrace))))
            .push(("frames_requested"@, decimal(event.frames_requested as nat)))
            .push(("midi_source"@, optional_quoted(optional_text(event.midi_source))))
            .push(("soundfont_ids"@, array_of( texts(event.soundfont_ids@).map_values(|value: Seq<char>| quoted(value)), )))
            .push(("midi_scan"@, scan_json(event.midi_scan@))),
    )
}

pub fn render_error_trace_json(sequence: u64, event: &RenderErrorTraceEvent) -> (text: String)
    ensures
        text@ == error_line(sequence, *event),
{
    let mut object = JsonObject::new();
    object.string("schema", "flutz.render_debug.error.v1");
    object.number("sequence", sequence as u128);
    object.string("source", event.source.as_str());
    object.string("failure_kind", event.failure_kind.as_str());
    object.string("detail", event.detail.as_str());
    object.raw("backtrace", json_option_string(&event.backtrace).as_str());
    object.number("frames_requested", event.frames_requested as u128);
    object.raw("midi_source", json_option_string(&event.midi_source).as_str());
    object.raw("soundfont_ids", json_string_array(&event.soundfont_ids).as_str());
    object.raw("midi_scan", midi_scan_json(&event.midi_scan).as_str());
    object.finish()
}

/// The newest errors of the renderer, and the number of lines written.
pub struct RenderErrorTrace {
    pub sequence: u64,
    pub recent: VecDeque<RenderErrorTraceEvent>,
}

/// How many errors are kept.
pub const RECENT_ERRORS: usize = 64;

impl RenderErrorTrace {
    pub fn new() -> (trace: RenderErrorTrace)
        ensures
            trace.sequence == 0,
            trace.recent@.len() == 0,
    {
        RenderErrorTrace { sequence: 0, recent: VecDeque::new() }
    }

    /// Counts a line for a scan and returns it.
    pub fn record_midi_scan(
        &mut self,
        midi_source: &Option<String>,
        diagnostics: &PlaybackMidiScanDiagnostics,
    ) -> (line: String)
        ensures
            final(self).sequence == u64_cap(old(self).sequence + 1),
            final(self).recent == old(self).recent,
            line@ == scan_line(final(self).sequence, optional_text(*midi_source), diagnostics@),
    {
        self.sequence = self.sequence.saturating_add(1);
        midi_scan_trace_json(self.sequence, midi_source, diagnostics)
    }

    /// Counts a line for an error, keeps the error and returns the line.
    pub fn record_error(&mut self, event: RenderErrorTraceEvent) -> (line: String)
        ensures
            final(self).sequence == u64_cap(old(self).sequence + 1),
            final(self).recent@ == newest(old(self).recent@.push(event), RECENT_ERRORS as int),
            line@ == error_line(final(self).sequence, event),
    {
        self.sequence = self.sequence.saturating_add(1);
        let line = render_error_trace_json(self.sequence, &event);
        push_bounded(&mut self.recent, event, RECENT_ERRORS);
        line
    }

    /// Hands out the kept errors, oldest first, and forgets them.
    pub fn take_recent(&mut self) -> (events: Vec<RenderErrorTraceEvent>)
        ensures
            events@ == old(self).recent@,
            final(self).recent@.len() == 0,
            final(self).sequence == old(self).sequence,
    {
        let ghost all = self.recent@;
        let mut events: Vec<RenderErrorTraceEvent> = Vec::new();
        assert(all.skip(0) =~= all);
        while self.recent.len() > 0
            invariant
                self.sequence == old(self).sequence,
                all == old(self).recent@,
                events@.len() + self.recent@.len() == all.len(),
                events@ == all.take(events@.len() as int),
                self.recent@ == all.skip(events@.len() as int),
            decreases self.recent.len(),
        {
            let ghost before = self.recent@;
            let ghost taken = events@;
            match self.recent.pop_front() {
                Some(event) => {
                    events.push(event);
                    assert(event == before[0]);
                    assert(self.recent@ =~= before.drop_first());
                    assert(events@ =~= all.take(taken.len() as int + 1));
                    assert(self.recent@ =~= all.skip(taken.len() as int + 1));
                },
                None => {},
            }
        }
        assert(all.take(all.len() as int) =~= all);
        events
    }
}

/// The detail of a panic: its message where it has one.
pub open spec fn panic_detail(message: Option<Seq<char>>) -> Seq<char> {
    match message {
        Some(text) => text,
        None => "non-string panic payload"@,
    }
}

pub fn panic_payload_to_string(message: Option<String>) -> (detail: String)
    ensures
        detail@ == panic_detail(optional_text(message)),
{
    match message {
        Some(text) => text,
        None => "non-string panic payload".to_owned(),
    }
}

/// How a render call failed.
#[derive(Debug)]
pub enum RenderFailure {
    /// With an error.
    Error { message: String },
    /// With a panic, whose message is text or is not.
    Panic { payload: Option<String>, backtrace: String },
}

/// The event of a render call that failed.
pub fn render_failure_event(
    source: &str,
    failure: RenderFailure,
    frames_requested: usize,
    midi_source: Option<String>,
    soundfont_ids: Vec<String>,
    midi_scan: PlaybackMidiScanDiagnostics,
) -> (event: RenderErrorTraceEvent)
    ensures
        event.source@ == source@,
        event.frames_requested == frames_requested,
        event.midi_source == midi_source,
        event.soundfont_ids == soundfont_ids,
        event.midi_scan == midi_scan,
        match failure {
            RenderFailure::Error { message } => event.failure_kind@ == "error"@ && event.detail@
                == message@ && event.backtrace is None,
            RenderFailure::Panic { payload, backtrace } => event.failure_kind@ == "panic"@
                && event.detail@ == panic_detail(optional_text(payload)) && event.backtrace
                == Some(backtrace),
        },
{
    let (failure_kind, detail, backtrace) = match failure {
        RenderFailure::Error { message } => ("error".to_owned(), message, None),
        RenderFailure::Panic { payload, backtrace } => (
            "panic".to_owned(),
            panic_payload_to_string(payload),
            Some(backtrace),
        ),
    };
    RenderErrorTraceEvent {
        source: source.to_owned(),
        failure_kind,
        detail,
        backtrace,
        frames_requested,
        midi_source,
        soundfont_ids,
        midi_scan,
    }
}

/// The event of a lock that was left behind by a panic and taken over.
pub fn record_render_lock_recovery(
    source: &str,
    lock_name: &str,
    midi_source: Option<String>,
    soundfont_ids: Vec<String>,
    midi_scan: PlaybackMidiScanDiagnostics,
) -> (event: RenderErrorTraceEvent)
    ensures
        event.source@ == source@,
        event.failure_kind@ == "lock-recovery"@,
        event.detail@ == "recovered poisoned "@ + lock_name@ + " lock"@,
        event.backtrace is None,
        event.frames_requested == 0,
        event.midi_source == midi_source,
        event.soundfont_ids == soundfont_ids,
        event.midi_scan == midi_scan,
{
    let mut detail = "recovered poisoned ".to_owned();
    detail.append(lock_name);
    detail.append(" lock");
    RenderErrorTraceEvent {
        source: source.to_owned(),
        failure_kind: "lock-recovery".to_owned(),
        detail,
        backtrace: None,
        frames_requested: 0,
        midi_source,
        soundfont_ids,
        midi_scan,
    }
}

/// A SysEx event is traced with what was read of it, and the scan of a file with all of its
/// events in order.
pub proof fn scans_are_traced_as_interpreted(
    loop_type: MidiFileLoopType,
    interpretation: MidiInterpretation,
    i: int,
)
    requires
        0 <= i < interpretation.sysex_events@.len(),
    ensures
        ({
            let scan = scan_of(loop_type, interpretation);
            let event = interpretation.sysex_events@[i];
            &&& scan.loop_style == loop_type.label()
            &&& scan.percussion_channels == interpretation.percussion_channels@
            &&& scan.sysex_event_count == interpretation.sysex_event_count
            &&& scan.recognized_sysex_event_count == interpretation.recognized_sysex_event_count
            &&& scan.sysex_events.len() == interpretation.sysex_events@.len()
            &&& scan.sysex_events[i].index == event.index
            &&& scan.sysex_events[i].status == event.status
            &&& scan.sysex_events[i].byte_len == event.byte_len
            &&& scan.sysex_events[i].manufacturer_id == event.manufacturer_id@
            &&& scan.sysex_events[i].recognized == event.recognized
            &&& scan.sysex_events[i].bytes_hex == event.bytes_hex@
            &&& (scan.sysex_events[i].system_mode is Some) == (event.system_mode is Some)
            &&& (scan.sysex_events[i].channel_role is Some) == (event.channel_role is Some)
            &&& event.channel_role is Some ==> scan.sysex_events[i].channel_role->Some_0.0
                == event.channel_role->Some_0.0
        }),
{
}

} // verus!
