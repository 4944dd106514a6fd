//! Per-channel MIDI controller state, kept as raw data values.

use vstd::prelude::*;

verus! {

/// The registered parameter number selecting the pitch-bend range.
pub const RPN_PITCH_BEND_RANGE: u16 = 0;

/// The registered parameter number selecting fine tuning.
pub const RPN_FINE_TUNE: u16 = 1;

/// The registered parameter number selecting coarse tuning.
pub const RPN_COARSE_TUNE: u16 = 2;

/// The sentinel meaning no registered parameter is selected.
pub const RPN_NONE: u16 = 0x3fff;

/// One MIDI channel's state. Values are stored exactly as the wire
/// carries them: 7-bit data bytes and 14-bit coarse/fine pairs; the
/// conversions to gains and semitones are the signal path's concern.
#[derive(Clone, Copy, Debug, PartialEq, Eq, Structural)]
pub struct SynthChannel {
    /// Whether this is the percussion channel (bank 128).
    pub is_percussion: bool,
    /// The selected bank: 128 for percussion, 0 otherwise.
    pub bank_number: u16,
    /// The selected patch.
    pub patch_number: u8,
    /// Modulation depth, 14-bit.
    pub modulation: u16,
    /// Channel volume data byte.
    pub volume: u8,
    /// Pan data byte; 64 is center.
    pub pan: u8,
    /// Expression data byte.
    pub expression: u8,
    /// Whether the hold pedal is down.
    pub hold_pedal: bool,
    /// Reverb send data byte.
    pub reverb_send: u8,
    /// Chorus send data byte.
    pub chorus_send: u8,
    /// The selected registered parameter, or `RPN_NONE`.
    pub rpn: u16,
    /// Pitch-bend range, 14-bit: coarse semitones and fine cents.
    pub pitch_bend_range: u16,
    /// Coarse tuning in semitones, offset from the data byte by 64.
    pub coarse_tune: i16,
    /// Fine tuning, 14-bit; 8192 is center.
    pub fine_tune: u16,
    /// Pitch-bend wheel position, 14-bit; 8192 is center.
    pub pitch_bend: u16,
}

/// The controller state a channel starts with and returns to on reset:
/// GM defaults.
pub open spec fn spec_channel_defaults(is_percussion: bool) -> SynthChannel {
    SynthChannel {
        is_percussion,
        bank_number: if is_percussion {
            128
        } else {
            0
        },
        patch_number: 0,
        modulation: 0,
        volume: 100,
        pan: 64,
        expression: 127,
        hold_pedal: false,
        reverb_send: 40,
        chorus_send: 0,
        rpn: RPN_NONE,
        pitch_bend_range: 256,
        coarse_tune: 0,
        fine_tune: 8192,
        pitch_bend: 8192,
    }
}

/// The channel after one control-change message. Controllers the
/// engine does not recognize change nothing; the all-sound-off and
/// all-notes-off controllers act on voices, not on channel state.
pub open spec fn spec_apply_controller(ch: SynthChannel, controller: u8, value: u8) -> SynthChannel {
    if controller == 1 {
        SynthChannel { modulation: (ch.modulation % 128 + (value % 128) * 128) as u16, ..ch }
    } else if controller == 6 {
        if ch.rpn == RPN_PITCH_BEND_RANGE {
            SynthChannel {
                pitch_bend_range: (ch.pitch_bend_range % 128 + (value % 128) * 128) as u16,
                ..ch
            }
        } else if ch.rpn == RPN_FINE_TUNE {
            SynthChannel { fine_tune: (ch.fine_tune % 128 + (value % 128) * 128) as u16, ..ch }
        } else if ch.rpn == RPN_COARSE_TUNE {
            SynthChannel { coarse_tune: (value - 64) as i16, ..ch }
        } else {
            ch
        }
    } else if controller == 7 {
        SynthChannel { volume: value, ..ch }
    } else if controller == 10 {
        SynthChannel { pan: value, ..ch }
    } else if controller == 11 {
        SynthChannel { expression: value, ..ch }
    } else if controller == 38 {
        if ch.rpn == RPN_PITCH_BEND_RANGE {
            SynthChannel {
                pitch_bend_range: (ch.pitch_bend_range / 128 * 128 + value % 128) as u16,
                ..ch
            }
        } else if ch.rpn == RPN_FINE_TUNE {
            SynthChannel { fine_tune: (ch.fine_tune / 128 * 128 + value % 128) as u16, ..ch }
        } else {
            ch
        }
    } else if controller == 64 {
        SynthChannel { hold_pedal: value >= 64, ..ch }
    } else if controller == 91 {
        SynthChannel { reverb_send: value, ..ch }
    } else if controller == 93 {
        SynthChannel { chorus_send: value, ..ch }
    } else if controller == 100 {
        SynthChannel { rpn: (ch.rpn / 128 * 128 + value % 128) as u16, ..ch }
    } else if controller == 101 {
        SynthChannel { rpn: (ch.rpn % 128 + (value % 128) * 128) as u16, ..ch }
    } else if controller == 121 {
        SynthChannel {
            modulation: 0,
            expression: 127,
            hold_pedal: false,
            rpn: RPN_NONE,
            pitch_bend: 8192,
            ..ch
        }
    } else {
        ch
    }
}

impl SynthChannel {
    /// A channel in its GM default state.
    pub fn new(is_percussion: bool) -> (r: Self)
        ensures
            r == spec_channel_defaults(is_percussion),
    {
        SynthChannel {
            is_percussion,
            bank_number: if is_percussion {
                128
            } else {
                0
            },
            patch_number: 0,
            modulation: 0,
            volume: 100,
            pan: 64,
            expression: 127,
            hold_pedal: false,
            reverb_send: 40,
            chorus_send: 0,
            rpn: RPN_NONE,
            pitch_bend_range: 256,
            coarse_tune: 0,
            fine_tune: 8192,
            pitch_bend: 8192,
        }
    }

    /// Return every controller to its GM default.
    pub fn reset(&mut self)
        ensures
            *final(self) == spec_channel_defaults(old(self).is_percussion),
    {
        *self = SynthChannel::new(self.is_percussion);
    }

    /// Apply one control-change message.
    pub fn apply_controller(&mut self, controller: u8, value: u8)
        ensures
            *final(self) == spec_apply_controller(*old(self), controller, value),
    {
        if controller == 1 {
            self.modulation = self.modulation % 128 + (value % 128) as u16 * 128;
        } else if controller == 6 {
            if self.rpn == RPN_PITCH_BEND_RANGE {
                self.pitch_bend_range = self.pitch_bend_range % 128 + (value % 128) as u16 * 128;
            } else if self.rpn == RPN_FINE_TUNE {
                self.fine_tune = self.fine_tune % 128 + (value % 128) as u16 * 128;
            } else if self.rpn == RPN_COARSE_TUNE {
                self.coarse_tune = value as i16 - 64;
            }
        } else if controller == 7 {
            self.volume = value;
        } else if controller == 10 {
            self.pan = value;
        } else if controller == 11 {
            self.expression = value;
        } else if controller == 38 {
            if self.rpn == RPN_PITCH_BEND_RANGE {
                self.pitch_bend_range = self.pitch_bend_range / 128 * 128 + (value % 128) as u16;
            } else if self.rpn == RPN_FINE_TUNE {
                self.fine_tune = self.fine_tune / 128 * 128 + (value % 128) as u16;
            }
        } else if controller == 64 {
            self.hold_pedal = value >= 64;
        } else if controller == 91 {
            self.reverb_send = value;
        } else if controller == 93 {
            self.chorus_send = value;
        } else if controller == 100 {
            self.rpn = self.rpn / 128 * 128 + (value % 128) as u16;
        } else if controller == 101 {
            self.rpn = self.rpn % 128 + (value % 128) as u16 * 128;
        } else if controller == 121 {
            self.modulation = 0;
            self.expression = 127;
            self.hold_pedal = false;
            self.rpn = RPN_NONE;
            self.pitch_bend = 8192;
        }
    }

    /// Apply a program-change message.
    pub fn set_patch(&mut self, patch: u8)
        ensures
            *final(self) == (SynthChannel { patch_number: patch, ..*old(self) }),
    {
        self.patch_number = patch;
    }

    /// Apply a pitch-bend message from its two data bytes.
    pub fn set_pitch_bend(&mut self, data1: u8, data2: u8)
        ensures
            *final(self) == (SynthChannel {
                pitch_bend: (data1 % 128 + (data2 % 128) * 128) as u16,
                ..*old(self)
            }),
    {
        self.pitch_bend = (data1 % 128) as u16 + (data2 % 128) as u16 * 128;
    }
}

} // verus!
