//! Audio, Video, and Audio/Video subclasses.

use vstd::prelude::*;
use crate::class::subclass::USBSubClass;
use crate::error::USBParseError;

verus! {

/// Subclass codes of the Audio/Video base class.
#[derive(Clone, Copy, Debug, PartialEq, Eq)]
pub enum AVSubClass {
    /// AV Control Interface.
    Control,

    /// AV Video Streaming Interface.
    VideoStreaming,

    /// AV Audio Streaming Interface.
    AudioStreaming,
}

impl USBSubClass for AVSubClass {
    open spec fn spec_decode(byte: u8) -> Option<AVSubClass> {
        match byte {
            0x01 => Some(AVSubClass::Control),
            0x02 => Some(AVSubClass::VideoStreaming),
            0x03 => Some(AVSubClass::AudioStreaming),
            _ => None,
        }
    }

    open spec fn spec_encode(self) -> u8 {
        match self {
            AVSubClass::Control => 0x01,
            AVSubClass::VideoStreaming => 0x02,
            AVSubClass::AudioStreaming => 0x03,
        }
    }

    fn decode(byte: u8) -> Result<AVSubClass, USBParseError> {
        match byte {
            0x01 => Ok(AVSubClass::Control),
            0x02 => Ok(AVSubClass::VideoStreaming),
            0x03 => Ok(AVSubClass::AudioStreaming),
            _ => Err(USBParseError::UnknownSubClass(byte)),
        }
    }

    fn encode(self) -> u8 {
        match self {
            AVSubClass::Control => 0x01,
            AVSubClass::VideoStreaming => 0x02,
            AVSubClass::AudioStreaming => 0x03,
        }
    }

    proof fn lemma_canonical_byte(self) {
    }
}

/// Round trip over the Audio/Video subclass table: every byte that decodes
/// re-encodes to itself.
pub proof fn lemma_av_subclass_round_trip(byte: u8)
    ensures
        AVSubClass::spec_decode(byte) matches Some(v) ==> v.spec_encode() == byte,
{
}

/// Subclass codes of the Audio base class.
#[derive(Clone, Copy, Debug, PartialEq, Eq)]
pub enum AudioSubClass {
    /// Audio Control Interface.
    Control,

    /// Audio Streaming Interface.
    Streaming,

    /// MIDI Streaming Interface.
    MIDIStreaming,
}

impl USBSubClass for AudioSubClass {
    open spec fn spec_decode(byte: u8) -> Option<AudioSubClass> {
        match byte {
            0x01 => Some(AudioSubClass::Control),
            0x02 => Some(AudioSubClass::Streaming),
            0x03 => Some(AudioSubClass::MIDIStreaming),
            _ => None,
        }
    }

    open spec fn spec_encode(self) -> u8 {
        match self {
            AudioSubClass::Control => 0x01,
            AudioSubClass::Streaming => 0x02,
            AudioSubClass::MIDIStreaming => 0x03,
        }
    }

    fn decode(byte: u8) -> Result<AudioSubClass, USBParseError> {
        match byte {
            0x01 => Ok(AudioSubClass::Control),
            0x02 => Ok(AudioSubClass::Streaming),
            0x03 => Ok(AudioSubClass::MIDIStreaming),
            _ => Err(USBParseError::UnknownSubClass(byte)),
        }
    }

    fn encode(self) -> u8 {
        match self {
            AudioSubClass::Control => 0x01,
            AudioSubClass::Streaming => 0x02,
            AudioSubClass::MIDIStreaming => 0x03,
        }
    }

    proof fn lemma_canonical_byte(self) {
    }
}

/// Round trip over the Audio subclass table: every byte that decodes
/// re-encodes to itself.
pub proof fn lemma_audio_subclass_round_trip(byte: u8)
    ensures
        AudioSubClass::spec_decode(byte) matches Some(v) ==> v.spec_encode() == byte,
{
}

/// Subclass codes of the Video base class.
#[derive(Clone, Copy, Debug, PartialEq, Eq)]
pub enum VideoSubClass {
    /// Video Control Interface.
    Control,

    /// Video Streaming Interface.
    Streaming,

    /// Video Interface Collection.
    InterfaceCollection,
}

impl USBSubClass for VideoSubClass {
    open spec fn spec_decode(byte: u8) -> Option<VideoSubClass> {
        match byte {
            0x01 => Some(VideoSubClass::Control),
            0x02 => Some(VideoSubClass::Streaming),
            0x03 => Some(VideoSubClass::InterfaceCollection),
            _ => None,
        }
    }

    open spec fn spec_encode(self) -> u8 {
        match self {
            VideoSubClass::Control => 0x01,
            VideoSubClass::Streaming => 0x02,
            VideoSubClass::InterfaceCollection => 0x03,
        }
    }

    fn decode(byte: u8) -> Result<VideoSubClass, USBParseError> {
        match byte {
            0x01 => Ok(VideoSubClass::Control),
            0x02 => Ok(VideoSubClass::Streaming),
            0x03 => Ok(VideoSubClass::InterfaceCollection),
            _ => Err(USBParseError::UnknownSubClass(byte)),
        }
    }

    fn encode(self) -> u8 {
        match self {
            VideoSubClass::Control => 0x01,
            VideoSubClass::Streaming => 0x02,
            VideoSubClass::InterfaceCollection => 0x03,
        }
    }

    proof fn lemma_canonical_byte(self) {
    }
}

/// Round trip over the Video subclass table: every byte that decodes
/// re-encodes to itself.
pub proof fn lemma_video_subclass_round_trip(byte: u8)
    ensures
        VideoSubClass::spec_decode(byte) matches Some(v) ==> v.spec_encode() == byte,
{
}

} // verus!
