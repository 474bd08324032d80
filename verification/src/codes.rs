//! Selectors that the native API knows by integer code.

use vstd::prelude::*;

verus! {

/// A derived playback property of an open file.
#[derive(Clone, Copy, Debug, PartialEq, Eq, Structural)]
pub enum Properties {
    /// Duration in seconds.
    Length,
    /// Bit rate in kb/s.
    Bitrate,
    /// Sample rate in Hz.
    SampleRate,
    /// Number of audio channels.
    Channels,
}

/// A container format that an open can be forced to.
#[derive(Clone, Copy, Debug, PartialEq, Eq, Structural)]
pub enum Type {
    MPEG,
    OggVorbis,
    FLAC,
    MPC,
    OggFlac,
    WavPack,
    Speex,
    TrueAudio,
    MP4,
    ASF,
}

impl Type {
    /// The integer by which the native API knows this container format.
    pub open spec fn spec_code(self) -> u32 {
        match self {
            Type::MPEG => 0,
            Type::OggVorbis => 1,
            Type::FLAC => 2,
            Type::MPC => 3,
            Type::OggFlac => 4,
            Type::WavPack => 5,
            Type::Speex => 6,
            Type::TrueAudio => 7,
            Type::MP4 => 8,
            Type::ASF => 9,
        }
    }

    /// The integer by which the native API knows this container format.
    #[verifier::when_used_as_spec(spec_code)]
    pub fn code(self) -> (c: u32)
        ensures
            c == self.spec_code(),
    {
        match self {
            Type::MPEG => 0,
            Type::OggVorbis => 1,
            Type::FLAC => 2,
            Type::MPC => 3,
            Type::OggFlac => 4,
            Type::WavPack => 5,
            Type::Speex => 6,
            Type::TrueAudio => 7,
            Type::MP4 => 8,
            Type::ASF => 9,
        }
    }
}

/// A text encoding for newly written ID3v2 frames.
#[allow(non_camel_case_types)]
#[derive(Clone, Copy, Debug, PartialEq, Eq, Structural)]
pub enum ID3V2_Encoding {
    Latin1,
    UTF16,
    UTF16BE,
    UTF8,
}

impl ID3V2_Encoding {
    /// The integer by which the native API knows this encoding.
    pub open spec fn spec_code(self) -> u32 {
        match self {
            ID3V2_Encoding::Latin1 => 0,
            ID3V2_Encoding::UTF16 => 1,
            ID3V2_Encoding::UTF16BE => 2,
            ID3V2_Encoding::UTF8 => 3,
        }
    }

    /// The integer by which the native API knows this encoding.
    #[verifier::when_used_as_spec(spec_code)]
    pub fn code(self) -> (c: u32)
        ensures
            c == self.spec_code(),
    {
        match self {
            ID3V2_Encoding::Latin1 => 0,
            ID3V2_Encoding::UTF16 => 1,
            ID3V2_Encoding::UTF16BE => 2,
            ID3V2_Encoding::UTF8 => 3,
        }
    }
}

/// Distinct container formats have distinct codes, all below ten.
pub proof fn lemma_type_codes_distinct(a: Type, b: Type)
    ensures
        a.spec_code() < 10,
        a.spec_code() == b.spec_code() ==> a == b,
{
}

/// Distinct encodings have distinct codes, all below four.
pub proof fn lemma_encoding_codes_distinct(a: ID3V2_Encoding, b: ID3V2_Encoding)
    ensures
        a.spec_code() < 4,
        a.spec_code() == b.spec_code() ==> a == b,
{
}

} // verus!
