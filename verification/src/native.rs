//! The calls that cross the native boundary, and what they hold on the far side.
//!
//! This library makes no native call itself. Each operation returns the calls
//! to make, as values, and a driver makes them in the order given. Where an
//! operation needs an answer from the native layer, a later operation takes it
//! as an argument.

use vstd::prelude::*;

verus! {

/// One entry point of the native API together with its arguments.
///
/// `B` is the type of a text buffer: `Vec<u8>` in a call that is to be made,
/// `Seq<u8>` in its model. The file, tag and properties that a call works on
/// are those of the handle that issued it.
#[derive(Debug, PartialEq, Eq)]
pub enum Call<B> {
    /// `taglib_set_strings_unicode`, with its flag.
    SetStringsUnicode(i32),
    /// `taglib_id3v2_set_default_text_encoding`, with the encoding's code.
    SetDefaultTextEncoding(u32),
    /// `taglib_file_new`, with the path as a C string.
    FileNew(B),
    /// `taglib_file_new_type`, with the path as a C string and the format's code.
    FileNewType(B, u32),
    /// `taglib_file_is_valid`. The answer is a flag.
    FileIsValid,
    /// `taglib_file_tag`.
    FileTag,
    /// `taglib_file_audioproperties`.
    FileAudioProperties,
    /// `taglib_tag_title`. The answer is a text buffer owned by the native layer.
    TagTitle,
    /// `taglib_tag_artist`. The answer is a text buffer owned by the native layer.
    TagArtist,
    /// `taglib_tag_comment`. The answer is a text buffer owned by the native layer.
    TagComment,
    /// `taglib_tag_genre`. The answer is a text buffer owned by the native layer.
    TagGenre,
    /// `taglib_tag_year`. The answer is an unsigned number.
    TagYear,
    /// `taglib_tag_track`. The answer is an unsigned number.
    TagTrack,
    /// `taglib_tag_set_title`, with the text as a C string.
    TagSetTitle(B),
    /// `taglib_tag_set_artist`, with the text as a C string.
    TagSetArtist(B),
    /// `taglib_tag_set_album`, with the text as a C string.
    TagSetAlbum(B),
    /// `taglib_tag_set_comment`, with the text as a C string.
    TagSetComment(B),
    /// `taglib_tag_set_year`.
    TagSetYear(u32),
    /// `taglib_tag_set_track`.
    TagSetTrack(u32),
    /// `taglib_audioproperties_length`. The answer is a signed number.
    AudioLength,
    /// `taglib_audioproperties_bitrate`. The answer is a signed number.
    AudioBitrate,
    /// `taglib_audioproperties_samplerate`. The answer is a signed number.
    AudioSampleRate,
    /// `taglib_audioproperties_channels`. The answer is a signed number.
    AudioChannels,
    /// `taglib_tag_free_strings`: frees every text buffer handed out so far.
    FreeStrings,
    /// `taglib_file_free`.
    FileFree,
}

/// A call that is to be made.
pub type NativeCall = Call<Vec<u8>>;

/// The model of a call: its buffers as byte sequences.
pub type CallModel = Call<Seq<u8>>;

impl View for Call<Vec<u8>> {
    type V = Call<Seq<u8>>;

    open spec fn view(&self) -> Call<Seq<u8>> {
        match *self {
            Call::SetStringsUnicode(flag) => Call::SetStringsUnicode(flag),
            Call::SetDefaultTextEncoding(code) => Call::SetDefaultTextEncoding(code),
            Call::FileNew(path) => Call::FileNew(path@),
            Call::FileNewType(path, code) => Call::FileNewType(path@, code),
            Call::FileIsValid => Call::FileIsValid,
            Call::FileTag => Call::FileTag,
            Call::FileAudioProperties => Call::FileAudioProperties,
            Call::TagTitle => Call::TagTitle,
            Call::TagArtist => Call::TagArtist,
            Call::TagComment => Call::TagComment,
            Call::TagGenre => Call::TagGenre,
            Call::TagYear => Call::TagYear,
            Call::TagTrack => Call::TagTrack,
            Call::TagSetTitle(text) => Call::TagSetTitle(text@),
            Call::TagSetArtist(text) => Call::TagSetArtist(text@),
            Call::TagSetAlbum(text) => Call::TagSetAlbum(text@),
            Call::TagSetComment(text) => Call::TagSetComment(text@),
            Call::TagSetYear(year) => Call::TagSetYear(year),
            Call::TagSetTrack(track) => Call::TagSetTrack(track),
            Call::AudioLength => Call::AudioLength,
            Call::AudioBitrate => Call::AudioBitrate,
            Call::AudioSampleRate => Call::AudioSampleRate,
            Call::AudioChannels => Call::AudioChannels,
            Call::FreeStrings => Call::FreeStrings,
            Call::FileFree => Call::FileFree,
        }
    }
}

/// The models of the calls of a script, in order.
pub open spec fn script(calls: Seq<NativeCall>) -> Seq<CallModel> {
    Seq::new(calls.len(), |i: int| calls[i]@)
}

/// What the native layer holds on behalf of one handle.
pub struct Ledger {
    /// File contexts created and not yet freed.
    pub contexts: nat,
    /// Whether a text buffer has been handed out since the last freeing.
    pub strings: bool,
}

impl Ledger {
    /// Nothing held.
    pub open spec fn empty() -> Ledger {
        Ledger { contexts: 0, strings: false }
    }

    /// The ledger after one call.
    pub open spec fn apply(self, call: CallModel) -> Ledger {
        match call {
            Call::FileNew(_) | Call::FileNewType(_, _) => Ledger {
                contexts: self.contexts + 1,
                ..self
            },
            Call::FileFree => Ledger {
                contexts: if self.contexts > 0 {
                    (self.contexts - 1) as nat
                } else {
                    0
                },
                ..self
            },
            Call::TagTitle | Call::TagArtist | Call::TagComment | Call::TagGenre => Ledger {
                strings: true,
                ..self
            },
            Call::FreeStrings => Ledger { strings: false, ..self },
            _ => self,
        }
    }

    /// The ledger after the calls of a script, made in order.
    pub open spec fn run(self, calls: Seq<CallModel>) -> Ledger
        decreases calls.len(),
    {
        if calls.len() == 0 {
            self
        } else {
            self.apply(calls[0]).run(calls.drop_first())
        }
    }
}

} // verus!
