//! Routing raw MIDI note events to the control surfaces.
//!
//! The wire format is parsed by the midly crate behind a trusted wrapper;
//! everything after — which device a (channel, key) pair belongs to, which
//! control number it maps to, and whether it is a button or an encoder — is
//! the routing table verified here.

use vstd::prelude::*;
use crate::parameter::Parameter;

verus! {

/// The control surfaces messages are routed to.
#[derive(Clone, Copy, Debug, PartialEq, Eq, Structural)]
pub enum Device {
    Spectra,
    Twister,
}

/// What a control did: a button pressed or released, or an encoder turned to
/// a new value.
#[derive(Clone, Copy, Debug)]
pub enum Event {
    Button(bool),
    Encoder(Parameter),
}

/// Why raw bytes produced no message.
#[derive(Clone, Copy, Debug, PartialEq, Eq, Structural)]
pub enum MessageError {
    /// The bytes are not a complete MIDI message.
    Parse,
    /// A well-formed event this router has no mapping for.
    Unrecognized,
}

/// The note event midly parses from the bytes, if they hold a note-on or
/// note-off on some channel: channel, key, velocity, and whether it is a
/// press.
pub uninterp spec fn note_event_of(bytes: Seq<u8>) -> Option<(u8, u8, u8, bool)>;

/// Relies on midly's LiveEvent::parse: parsing is a function of the bytes
/// alone, channels are 4-bit and keys and velocities 7-bit values.
#[verifier::external_body]
fn parse_note_event(bytes: &[u8]) -> (r: Result<(u8, u8, u8, bool), MessageError>)
    ensures
        r matches Ok(e) ==> note_event_of(bytes@) == Some(e) && e.0 < 16 && e.1 < 128 && e.2
            < 128,
        r is Err ==> note_event_of(bytes@) is None,
{
    match midly::live::LiveEvent::parse(bytes) {
        Ok(midly::live::LiveEvent::Midi { channel, message }) => match message {
            midly::MidiMessage::NoteOn { key, vel } => {
                Ok((channel.as_int(), key.as_int(), vel.as_int(), true))
            },
            midly::MidiMessage::NoteOff { key, vel } => {
                Ok((channel.as_int(), key.as_int(), vel.as_int(), false))
            },
            _ => Err(MessageError::Unrecognized),
        },
        Ok(_) => Err(MessageError::Unrecognized),
        Err(_) => Err(MessageError::Parse),
    }
}

/// The Spectra pad grid is wired bottom row first; this is the pad number,
/// counted top-left across, for grid keys 36 to 51.
pub open spec fn spec_spectra_pad(key: u8) -> u8 {
    if 48 <= key <= 51 {
        (key - 48) as u8
    } else if 44 <= key <= 47 {
        (key - 40) as u8
    } else if 40 <= key <= 43 {
        (key - 32) as u8
    } else {
        (key - 24) as u8
    }
}

/// The Spectra side buttons sit on keys 20 to 25, in two mirrored triples.
pub open spec fn spec_spectra_side(key: u8) -> u8 {
    if key == 22 {
        16
    } else if key == 21 {
        17
    } else if key == 20 {
        18
    } else if key == 25 {
        19
    } else if key == 24 {
        20
    } else {
        21
    }
}

/// A control event routed to a device.
#[derive(Clone, Copy, Debug)]
pub struct Message {
    pub control: u8,
    pub device: Device,
    pub event: Event,
}

/// The message owed for a parsed note event: what the routing table says of
/// every (channel, key) pair, including that pairs outside it are rejected.
pub open spec fn spec_routed(channel: u8, key: u8, vel: u8, press: bool, r: Result<
    Message,
    MessageError,
>) -> bool {
    if channel == 0 && key <= 15 {
        r matches Ok(m) && m.device == Device::Twister && m.control == key && (
        m.event matches Event::Encoder(p) && p.wf() && p.spec_value() == vel - 64)
    } else if channel == 1 && key <= 15 {
        r matches Ok(m) && m.device == Device::Twister && m.control == key && (
        m.event matches Event::Button(b) && b == press)
    } else if channel == 2 && 36 <= key <= 51 {
        r matches Ok(m) && m.device == Device::Spectra && m.control == spec_spectra_pad(key) && (
        m.event matches Event::Button(b) && b == press)
    } else if channel == 3 && 20 <= key <= 25 {
        r matches Ok(m) && m.device == Device::Spectra && m.control == spec_spectra_side(key) && (
        m.event matches Event::Button(b) && b == press)
    } else if channel == 3 && 8 <= key <= 13 {
        r matches Ok(m) && m.device == Device::Twister && m.control == key + 8 && (
        m.event matches Event::Button(b) && b == press)
    } else {
        r == Result::<Message, MessageError>::Err(MessageError::Unrecognized)
    }
}

impl Message {
    /// Parse raw MIDI bytes and route them: note events on the mapped
    /// (channel, key) pairs become messages, every other well-formed event is
    /// unrecognized, and malformed bytes fail to parse.
    pub fn parse(event: &[u8]) -> (r: Result<Message, MessageError>)
        ensures
            note_event_of(event@) matches Some(e) ==> spec_routed(e.0, e.1, e.2, e.3, r),
            note_event_of(event@) is None ==> r is Err,
    {
        let (channel, key, vel, press) = match parse_note_event(event) {
            Ok(e) => e,
            Err(e) => {
                return Err(e);
            },
        };

        if channel == 0 && key <= 15 {
            Ok(
                Message {
                    control: key,
                    device: Device::Twister,
                    event: Event::Encoder(Parameter::from_midi(vel)),
                },
            )
        } else if channel == 1 && key <= 15 {
            Ok(Message { control: key, device: Device::Twister, event: Event::Button(press) })
        } else if channel == 2 && 36 <= key && key <= 51 {
            let control: u8 = if key >= 48 {
                key - 48
            } else if key >= 44 {
                key - 40
            } else if key >= 40 {
                key - 32
            } else {
                key - 24
            };
            Ok(Message { control, device: Device::Spectra, event: Event::Button(press) })
        } else if channel == 3 && 20 <= key && key <= 25 {
            let control: u8 = if key == 22 {
                16
            } else if key == 21 {
                17
            } else if key == 20 {
                18
            } else if key == 25 {
                19
            } else if key == 24 {
                20
            } else {
                21
            };
            Ok(Message { control, device: Device::Spectra, event: Event::Button(press) })
        } else if channel == 3 && 8 <= key && key <= 13 {
            Ok(
                Message {
                    control: key - 8 + 16,
                    device: Device::Twister,
                    event: Event::Button(press),
                },
            )
        } else {
            Err(MessageError::Unrecognized)
        }
    }

    /// The message's parts, in routing order.
    pub fn tuple(self) -> (r: (Device, u8, Event))
        ensures
            r.0 == self.device,
            r.1 == self.control,
            r.2 == self.event,
    {
        (self.device, self.control, self.event)
    }
}

} // verus!
