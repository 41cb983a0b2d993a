//! Mixer strips: what identifies one, and the number it is addressed by.
use crate::level::Level;
use vstd::prelude::*;

verus! {

/// One channel, bank and program that a MIDI file plays.
#[derive(Debug, Copy, Clone, PartialEq, Eq, Structural)]
pub struct MidiStripDescriptor {
    pub channel: u8,
    pub bank: u16,
    pub program: u8,
    pub is_percussion: bool,
}

impl Default for MidiStripDescriptor {
    fn default() -> (descriptor: Self)
        ensures
            descriptor == (MidiStripDescriptor {
                channel: 0,
                bank: 0,
                program: 0,
                is_percussion: false,
            }),
    {
        MidiStripDescriptor { channel: 0, bank: 0, program: 0, is_percussion: false }
    }
}

/// The source of one rendered stem. A stem without channel and program carries
/// what the channels of its soundfont share.
#[derive(Debug)]
pub struct StemIdentity {
    pub soundfont_id: String,
    pub midi_channel: Option<u8>,
    pub midi_bank: Option<u16>,
    pub midi_program: Option<u8>,
    pub is_percussion: bool,
}

/// The levels of one strip.
#[derive(Debug, Copy, Clone, PartialEq, Eq, Structural)]
pub struct StripLevels {
    pub volume: Level,
    pub pan: Level,
    pub gain_db: Level,
    pub limiter_enabled: bool,
    pub limiter_amount: Level,
    pub reverb: Level,
    pub chorus: Level,
}

/// The controls of one strip.
#[derive(Debug, Copy, Clone, PartialEq, Eq, Structural)]
pub struct MixerStripControls {
    pub mute: bool,
    pub solo: bool,
    pub levels: StripLevels,
}

/// The strip number of a stem: the slot of its soundfont, whether it is
/// percussion, its channel (16 for none), bank (0 for none) and program (127 for
/// none).
pub open spec fn stem_number(
    font_index: int,
    channel: Option<u8>,
    bank: Option<u16>,
    program: Option<u8>,
    is_percussion: bool,
) -> int {
    (font_index + 1) * 100_000 + (if is_percussion {
        50_000int
    } else {
        0
    }) + (match channel {
        Some(c) => c as int,
        None => 16,
    }) * 16_384 + (match bank {
        Some(b) => b as int,
        None => 0,
    }) * 128 + (match program {
        Some(p) => p as int,
        None => 127,
    }) + 1
}

/// Whether every strip number of a soundfont slot fits in 64 bits.
pub open spec fn slot_fits(font_index: int) -> bool {
    (font_index + 1) * 100_000 + 13_000_000 <= u64::MAX
}

/// The strip number of a stem.
pub fn stem_strip_id(font_index: usize, identity: &StemIdentity) -> (id: u64)
    requires
        slot_fits(font_index as int),
    ensures
        id == stem_number(
            font_index as int,
            identity.midi_channel,
            identity.midi_bank,
            identity.midi_program,
            identity.is_percussion,
        ),
{
    let channel: u64 = match identity.midi_channel {
        Some(c) => c as u64,
        None => 16,
    };
    let bank: u64 = match identity.midi_bank {
        Some(b) => b as u64,
        None => 0,
    };
    let program: u64 = match identity.midi_program {
        Some(p) => p as u64,
        None => 127,
    };
    let percussion: u64 = if identity.is_percussion {
        50_000
    } else {
        0
    };
    (font_index as u64 + 1) * 100_000 + percussion + channel * 16_384 + bank * 128 + program + 1
}

/// The strip number of a channel, bank and program of a soundfont row.
pub fn strip_id_for(
    soundfont_index: usize,
    channel: u8,
    bank: u16,
    program: u8,
    is_percussion: bool,
) -> (id: u64)
    requires
        slot_fits(soundfont_index as int),
    ensures
        id == stem_number(
            soundfont_index as int,
            Some(channel),
            Some(bank),
            Some(program),
            is_percussion,
        ),
{
    let percussion: u64 = if is_percussion {
        50_000
    } else {
        0
    };
    (soundfont_index as u64 + 1) * 100_000 + percussion + channel as u64 * 16_384 + bank as u64
        * 128 + program as u64 + 1
}

/// Whether a stem carries what the channels of its soundfont share.
pub open spec fn is_residual(channel: Option<u8>, program: Option<u8>, is_percussion: bool) -> bool {
    channel is None && program is None && !is_percussion
}

pub fn is_global_residual_stem(identity: &StemIdentity) -> (residual: bool)
    ensures
        residual == is_residual(
            identity.midi_channel,
            identity.midi_program,
            identity.is_percussion,
        ),
{
    identity.midi_channel.is_none() && identity.midi_program.is_none() && !identity.is_percussion
}

impl MidiStripDescriptor {
    /// A number for the descriptor under a soundfont, without percussion slots.
    pub fn strip_id_for_soundfont(self, soundfont_index: usize) -> (id: u64)
        requires
            (soundfont_index + 1) * 10_000 + 13_000_000 <= u64::MAX,
        ensures
            id == (soundfont_index + 1) * 10_000 + self.channel * 16_384 + self.bank * 128
                + self.program + 1,
    {
        (soundfont_index as u64 + 1) * 10_000 + self.channel as u64 * 16_384 + self.bank as u64
            * 128 + self.program as u64 + 1
    }
}

/// Within one soundfont, two strips that are both percussion or both melodic and
/// have programs and banks below 128 share a number only if they have the same
/// channel, bank and program.
pub proof fn strip_numbers_differ_within_a_font(
    font: int,
    a: MidiStripDescriptor,
    b: MidiStripDescriptor,
)
    requires
        a.is_percussion == b.is_percussion,
        a.program < 128,
        b.program < 128,
        a.bank < 128,
        b.bank < 128,
        stem_number(font, Some(a.channel), Some(a.bank), Some(a.program), a.is_percussion)
            == stem_number(font, Some(b.channel), Some(b.bank), Some(b.program), b.is_percussion),
    ensures
        a == b,
{
}

/// Soundfonts are a hundred thousand numbers apart, and the percussion of one stands fifty
/// thousand above its melodic strips. A stem without a channel is numbered as the
/// seventeenth, one without a bank as the first bank, and one without a program as the last
/// program.
pub proof fn strip_numbers_are_spaced(
    font: int,
    other: int,
    channel: Option<u8>,
    bank: Option<u16>,
    program: Option<u8>,
    is_percussion: bool,
)
    ensures
        stem_number(font, channel, bank, program, is_percussion) - stem_number(
            other,
            channel,
            bank,
            program,
            is_percussion,
        ) == 100_000 * (font - other),
        stem_number(font, channel, bank, program, true) - stem_number(
            font,
            channel,
            bank,
            program,
            false,
        ) == 50_000,
        stem_number(font, None, bank, program, is_percussion) == stem_number(
            font,
            Some(16),
            bank,
            program,
            is_percussion,
        ),
        stem_number(font, channel, None, program, is_percussion) == stem_number(
            font,
            channel,
            Some(0),
            program,
            is_percussion,
        ),
        stem_number(font, channel, bank, None, is_percussion) == stem_number(
            font,
            channel,
            bank,
            Some(127),
            is_percussion,
        ),
        stem_number(0, Some(0), Some(0), Some(0), false) == 100_001,
        is_residual(channel, program, is_percussion) ==> !is_percussion && channel is None
            && program is None,
        is_residual(None, None, false),
{
}

} // verus!
