//! The file handle: one native context and the views derived from it.
//!
//! A handle goes from unopened to open to closed, and never back. Unopened it
//! is an [`Opening`]: the native layer has been asked for a context and has not
//! yet said whether the context is valid. Open or closed it is a [`Tag`].

use vstd::prelude::*;
use vstd::string::{StrSliceExecFns, StringExecFns};
use vstd::utf8::*;
use crate::codes::{Properties, Type};
use crate::config::EncodingConfig;
use crate::error::Error;
use crate::marshal::{
    boundary, c_strlen, is_c_string, lemma_utf8_zero_byte, marshal, text_of, unmarshal,
};
use crate::native::{script, Call, CallModel, Ledger, NativeCall};

verus! {

/// Where an opened handle stands.
#[derive(Clone, Copy, Debug, PartialEq, Eq, Structural)]
pub enum State {
    /// The native context is live and its views can be used. `strings` says
    /// whether the native layer has handed out a text buffer that has not been
    /// freed since.
    Open { strings: bool },
    /// The native context has been released.
    Closed,
}

/// The model of a [`Tag`].
pub struct TagModel {
    /// The path that the handle was opened on.
    pub path: Seq<char>,
    /// Where the handle stands.
    pub state: State,
}

impl TagModel {
    /// A handle as a successful open leaves it.
    pub open spec fn opened(path: Seq<char>) -> TagModel {
        TagModel { path, state: State::Open { strings: false } }
    }

    /// Whether the views of the handle can be used.
    pub open spec fn is_open(self) -> bool {
        self.state is Open
    }

    /// The handle once the native layer has been asked for a text buffer.
    pub open spec fn with_strings(self) -> TagModel {
        if self.is_open() {
            TagModel { state: State::Open { strings: true }, ..self }
        } else {
            self
        }
    }

    /// The handle once the text buffers have been freed.
    pub open spec fn without_strings(self) -> TagModel {
        if self.is_open() {
            TagModel { state: State::Open { strings: false }, ..self }
        } else {
            self
        }
    }

    /// The handle once it has been closed.
    pub open spec fn closed(self) -> TagModel {
        TagModel { state: State::Closed, ..self }
    }

    /// The calls that close the handle: none where it is closed already.
    pub open spec fn release(self) -> Seq<CallModel> {
        if self.is_open() {
            release_script()
        } else {
            Seq::empty()
        }
    }

    /// What the native layer holds for the handle.
    pub open spec fn ledger(self) -> Ledger {
        match self.state {
            State::Open { strings } => Ledger { contexts: 1, strings },
            State::Closed => Ledger::empty(),
        }
    }
}

/// The C string that names `path` to the native layer.
pub open spec fn path_buffer(path: Seq<char>) -> Seq<u8> {
    encode_utf8(path).push(0u8)
}

/// The calls that begin an open: create the context, then ask it whether it
/// is valid. The answer to the second goes to [`Opening::finish`].
pub open spec fn open_script(path: Seq<char>, hint: Option<Type>) -> Seq<CallModel> {
    seq![
        match hint {
            None => Call::FileNew(path_buffer(path)),
            Some(format) => Call::FileNewType(path_buffer(path), format.spec_code()),
        },
        Call::FileIsValid,
    ]
}

/// The calls that complete an open on a valid context: derive its two views.
pub open spec fn admit_script() -> Seq<CallModel> {
    seq![Call::FileTag, Call::FileAudioProperties]
}

/// The call that abandons an open on an invalid context: free it.
pub open spec fn reject_script() -> Seq<CallModel> {
    seq![Call::FileFree]
}

/// The calls that close an open handle: free the text buffers, then the
/// context.
pub open spec fn release_script() -> Seq<CallModel> {
    seq![Call::FreeStrings, Call::FileFree]
}

/// A handle for which the native layer has been asked to create a context.
#[derive(Debug)]
pub struct Opening {
    path: String,
}

impl View for Opening {
    type V = Seq<char>;

    /// The path that is being opened.
    closed spec fn view(&self) -> Seq<char> {
        self.path@
    }
}

/// An opened file: the owner of one native context, and the accessor of its
/// tag and of its audio properties.
#[derive(Debug)]
pub struct Tag {
    path: String,
    state: State,
}

impl View for Tag {
    type V = TagModel;

    closed spec fn view(&self) -> TagModel {
        TagModel { path: self.path@, state: self.state }
    }
}

/// Begins an open on `path`, with the container format forced to `hint` where
/// one is given.
fn begin(path: &str, found: bool, hint: Option<Type>) -> (r: Result<
    (Opening, Vec<NativeCall>),
    Error,
>)
    ensures
        match r {
            Ok((opening, calls)) => {
                &&& found
                &&& !path@.contains('\0')
                &&& opening@ == path@
                &&& script(calls@) == open_script(path@, hint)
            },
            Err(e) => e == Error::InvalidPath && (!found || path@.contains('\0')),
        },
{
    let mut buffer = path.as_bytes_vec();
    let n = c_strlen(buffer.as_slice());
    proof {
        lemma_utf8_zero_byte(path@);
    }
    if !found || n < buffer.len() {
        return Err(Error::InvalidPath);
    }
    buffer.push(0);
    let mut calls: Vec<NativeCall> = Vec::new();
    match hint {
        None => calls.push(Call::FileNew(buffer)),
        Some(format) => calls.push(Call::FileNewType(buffer, format.code())),
    }
    calls.push(Call::FileIsValid);
    assert(script(calls@) =~= open_script(path@, hint));
    Ok((Opening { path: String::from_str(path) }, calls))
}

impl Opening {
    /// The path that is being opened.
    pub fn path(&self) -> (path: &str)
        ensures
            path@ == self@,
    {
        self.path.as_str()
    }

    /// Ends the open with the native layer's answer on the context's validity.
    ///
    /// A valid context becomes an open handle, and the calls returned derive
    /// its views. An invalid one is refused with `InvalidFile`, and the call
    /// returned frees it: no view is derived from it.
    pub fn finish(self, valid: bool) -> (r: (Result<Tag, Error>, Vec<NativeCall>))
        ensures
            valid ==> r.0 is Ok && r.0.unwrap()@ == TagModel::opened(self@) && script(r.1@)
                == admit_script(),
            !valid ==> r.0 == Err::<Tag, Error>(Error::InvalidFile) && script(r.1@)
                == reject_script(),
    {
        let mut calls: Vec<NativeCall> = Vec::new();
        if valid {
            calls.push(Call::FileTag);
            calls.push(Call::FileAudioProperties);
            assert(script(calls@) =~= admit_script());
            (Ok(Tag { path: self.path, state: State::Open { strings: false } }), calls)
        } else {
            calls.push(Call::FileFree);
            assert(script(calls@) =~= reject_script());
            (Err(Error::InvalidFile), calls)
        }
    }
}

impl Tag {
    /// Begins to open the file at `path`, its container format left to the
    /// native layer to detect. `found` says whether a file is there.
    ///
    /// Without a file there the open fails with `InvalidPath` and no call is
    /// issued. A path with a NUL character names no file, whatever `found`
    /// says. Otherwise the calls returned create the context and ask for its
    /// validity.
    pub fn new(path: &str, found: bool) -> (r: Result<(Opening, Vec<NativeCall>), Error>)
        ensures
            match r {
                Ok((opening, calls)) => {
                    &&& found
                    &&& !path@.contains('\0')
                    &&& opening@ == path@
                    &&& script(calls@) == open_script(path@, None)
                },
                Err(e) => e == Error::InvalidPath && (!found || path@.contains('\0')),
            },
    {
        begin(path, found, None)
    }

    /// Begins to open the file at `path` as a file of the container format
    /// `_type`. In all else it is [`Tag::new`].
    pub fn new_by_type(path: &str, found: bool, _type: Type) -> (r: Result<
        (Opening, Vec<NativeCall>),
        Error,
    >)
        ensures
            match r {
                Ok((opening, calls)) => {
                    &&& found
                    &&& !path@.contains('\0')
                    &&& opening@ == path@
                    &&& script(calls@) == open_script(path@, Some(_type))
                },
                Err(e) => e == Error::InvalidPath && (!found || path@.contains('\0')),
            },
    {
        begin(path, found, Some(_type))
    }

    /// The path that the handle was opened on.
    pub fn path(&self) -> (path: &str)
        ensures
            path@ == self@.path,
    {
        self.path.as_str()
    }

    /// Whether the handle is open.
    pub fn is_open(&self) -> (open: bool)
        ensures
            open == self@.is_open(),
    {
        match self.state {
            State::Open { .. } => true,
            State::Closed => false,
        }
    }

    /// Asks for a text field: `call` on an open handle, which then has a text
    /// buffer outstanding.
    fn text_request(&mut self, call: NativeCall) -> (r: Result<NativeCall, Error>)
        ensures
            match r {
                Ok(issued) => old(self)@.is_open() && issued == call,
                Err(e) => !old(self)@.is_open() && e == Error::UseAfterClose,
            },
            final(self)@ == old(self)@.with_strings(),
    {
        match self.state {
            State::Open { .. } => {
                self.state = State::Open { strings: true };
                Ok(call)
            },
            State::Closed => Err(Error::UseAfterClose),
        }
    }

    /// Asks for a call that leaves the handle as it is: `call` on an open
    /// handle.
    fn request(&self, call: NativeCall) -> (r: Result<NativeCall, Error>)
        ensures
            match r {
                Ok(issued) => self@.is_open() && issued == call,
                Err(e) => !self@.is_open() && e == Error::UseAfterClose,
            },
    {
        if self.is_open() {
            Ok(call)
        } else {
            Err(Error::UseAfterClose)
        }
    }

    /// Asks for the title. The native layer answers with a text buffer, which
    /// goes to [`Tag::receive`].
    pub fn title(&mut self) -> (r: Result<NativeCall, Error>)
        ensures
            match r {
                Ok(call) => old(self)@.is_open() && call@ == Call::<Seq<u8>>::TagTitle,
                Err(e) => !old(self)@.is_open() && e == Error::UseAfterClose,
            },
            final(self)@ == old(self)@.with_strings(),
    {
        self.text_request(Call::TagTitle)
    }

    /// Asks for the artist. The native layer answers with a text buffer, which
    /// goes to [`Tag::receive`].
    pub fn artist(&mut self) -> (r: Result<NativeCall, Error>)
        ensures
            match r {
                Ok(call) => old(self)@.is_open() && call@ == Call::<Seq<u8>>::TagArtist,
                Err(e) => !old(self)@.is_open() && e == Error::UseAfterClose,
            },
            final(self)@ == old(self)@.with_strings(),
    {
        self.text_request(Call::TagArtist)
    }

    /// Asks for the comment. The native layer answers with a text buffer,
    /// which goes to [`Tag::receive`].
    pub fn comment(&mut self) -> (r: Result<NativeCall, Error>)
        ensures
            match r {
                Ok(call) => old(self)@.is_open() && call@ == Call::<Seq<u8>>::TagComment,
                Err(e) => !old(self)@.is_open() && e == Error::UseAfterClose,
            },
            final(self)@ == old(self)@.with_strings(),
    {
        self.text_request(Call::TagComment)
    }

    /// Asks for the genre. The native layer answers with a text buffer, which
    /// goes to [`Tag::receive`].
    pub fn genre(&mut self) -> (r: Result<NativeCall, Error>)
        ensures
            match r {
                Ok(call) => old(self)@.is_open() && call@ == Call::<Seq<u8>>::TagGenre,
                Err(e) => !old(self)@.is_open() && e == Error::UseAfterClose,
            },
            final(self)@ == old(self)@.with_strings(),
    {
        self.text_request(Call::TagGenre)
    }

    /// Takes the text buffer with which the native layer answered a request
    /// for a text field: decodes it into owned text as `config` says, and
    /// returns with the text the call that frees the buffer. The buffer is to
    /// be freed by that call, after this returns, and not before.
    pub fn receive(&mut self, config: &EncodingConfig, buffer: &[u8]) -> (r: Result<
        (String, NativeCall),
        Error,
    >)
        ensures
            match r {
                Ok((text, call)) => {
                    &&& old(self)@.is_open()
                    &&& text@ == text_of(config.spec_unicode(), buffer@)
                    &&& call@ == Call::<Seq<u8>>::FreeStrings
                },
                Err(e) => !old(self)@.is_open() && e == Error::UseAfterClose,
            },
            final(self)@ == old(self)@.without_strings(),
    {
        match self.state {
            State::Open { .. } => {
                let text = unmarshal(config, buffer);
                self.state = State::Open { strings: false };
                Ok((text, Call::FreeStrings))
            },
            State::Closed => Err(Error::UseAfterClose),
        }
    }

    /// Asks for the year. The native layer answers with the number itself.
    pub fn year(&self) -> (r: Result<NativeCall, Error>)
        ensures
            match r {
                Ok(call) => self@.is_open() && call@ == Call::<Seq<u8>>::TagYear,
                Err(e) => !self@.is_open() && e == Error::UseAfterClose,
            },
    {
        self.request(Call::TagYear)
    }

    /// Asks for the track number. The native layer answers with the number
    /// itself.
    pub fn track(&self) -> (r: Result<NativeCall, Error>)
        ensures
            match r {
                Ok(call) => self@.is_open() && call@ == Call::<Seq<u8>>::TagTrack,
                Err(e) => !self@.is_open() && e == Error::UseAfterClose,
            },
    {
        self.request(Call::TagTrack)
    }

    /// Asks for an audio property: the native accessor that belongs to `prop`.
    /// The native layer answers with the number itself.
    pub fn properties(&self, prop: Properties) -> (r: Result<NativeCall, Error>)
        ensures
            match r {
                Ok(call) => self@.is_open() && call@ == property_call(prop),
                Err(e) => !self@.is_open() && e == Error::UseAfterClose,
            },
    {
        match prop {
            Properties::Length => self.request(Call::AudioLength),
            Properties::Bitrate => self.request(Call::AudioBitrate),
            Properties::SampleRate => self.request(Call::AudioSampleRate),
            Properties::Channels => self.request(Call::AudioChannels),
        }
    }

    /// Sets the title: `title` goes out in a buffer of its own, encoded as
    /// `config` says, which lives as long as the call returned.
    #[allow(non_snake_case)]
    pub fn setTitle(&self, config: &EncodingConfig, title: &str) -> (r: Result<NativeCall, Error>)
        ensures
            match r {
                Ok(call) => self@.is_open() && call@ == Call::TagSetTitle(
                    boundary(config.spec_unicode(), title@),
                ),
                Err(e) => !self@.is_open() && e == Error::UseAfterClose,
            },
    {
        if self.is_open() {
            Ok(Call::TagSetTitle(marshal(config, title)))
        } else {
            Err(Error::UseAfterClose)
        }
    }

    /// Sets the artist: `artist` goes out in a buffer of its own, encoded as
    /// `config` says, which lives as long as the call returned.
    #[allow(non_snake_case)]
    pub fn setArtist(&self, config: &EncodingConfig, artist: &str) -> (r: Result<
        NativeCall,
        Error,
    >)
        ensures
            match r {
                Ok(call) => self@.is_open() && call@ == Call::TagSetArtist(
                    boundary(config.spec_unicode(), artist@),
                ),
                Err(e) => !self@.is_open() && e == Error::UseAfterClose,
            },
    {
        if self.is_open() {
            Ok(Call::TagSetArtist(marshal(config, artist)))
        } else {
            Err(Error::UseAfterClose)
        }
    }

    /// Sets the album name: `album` goes out in a buffer of its own, encoded
    /// as `config` says, which lives as long as the call returned.
    #[allow(non_snake_case)]
    pub fn setAlbum(&self, config: &EncodingConfig, album: &str) -> (r: Result<NativeCall, Error>)
        ensures
            match r {
                Ok(call) => self@.is_open() && call@ == Call::TagSetAlbum(
                    boundary(config.spec_unicode(), album@),
                ),
                Err(e) => !self@.is_open() && e == Error::UseAfterClose,
            },
    {
        if self.is_open() {
            Ok(Call::TagSetAlbum(marshal(config, album)))
        } else {
            Err(Error::UseAfterClose)
        }
    }

    /// Sets the comment: `comment` goes out in a buffer of its own, encoded as
    /// `config` says, which lives as long as the call returned.
    #[allow(non_snake_case)]
    pub fn setComment(&self, config: &EncodingConfig, comment: &str) -> (r: Result<
        NativeCall,
        Error,
    >)
        ensures
            match r {
                Ok(call) => self@.is_open() && call@ == Call::TagSetComment(
                    boundary(config.spec_unicode(), comment@),
                ),
                Err(e) => !self@.is_open() && e == Error::UseAfterClose,
            },
    {
        if self.is_open() {
            Ok(Call::TagSetComment(marshal(config, comment)))
        } else {
            Err(Error::UseAfterClose)
        }
    }

    /// Sets the year.
    #[allow(non_snake_case)]
    pub fn setYear(&self, year: u32) -> (r: Result<NativeCall, Error>)
        ensures
            match r {
                Ok(call) => self@.is_open() && call@ == Call::<Seq<u8>>::TagSetYear(year),
                Err(e) => !self@.is_open() && e == Error::UseAfterClose,
            },
    {
        self.request(Call::TagSetYear(year))
    }

    /// Sets the track number.
    #[allow(non_snake_case)]
    pub fn setTrack(&self, track: u32) -> (r: Result<NativeCall, Error>)
        ensures
            match r {
                Ok(call) => self@.is_open() && call@ == Call::<Seq<u8>>::TagSetTrack(track),
                Err(e) => !self@.is_open() && e == Error::UseAfterClose,
            },
    {
        self.request(Call::TagSetTrack(track))
    }

    /// Closes the handle. On an open handle the calls returned free the text
    /// buffers and then the context; on a closed one there is nothing to do,
    /// and nothing is freed twice.
    pub fn close(&mut self) -> (calls: Vec<NativeCall>)
        ensures
            final(self)@ == old(self)@.closed(),
            script(calls@) == old(self)@.release(),
    {
        let mut calls: Vec<NativeCall> = Vec::new();
        if self.is_open() {
            calls.push(Call::FreeStrings);
            calls.push(Call::FileFree);
            self.state = State::Closed;
        }
        assert(script(calls@) =~= old(self)@.release());
        calls
    }
}

/// The native accessor that belongs to an audio property.
pub open spec fn property_call(prop: Properties) -> CallModel {
    match prop {
        Properties::Length => Call::AudioLength,
        Properties::Bitrate => Call::AudioBitrate,
        Properties::SampleRate => Call::AudioSampleRate,
        Properties::Channels => Call::AudioChannels,
    }
}

/// The buffer that names a path without a NUL character is a C string: it
/// ends in its only zero byte.
pub proof fn lemma_path_buffer_is_c_string(path: Seq<char>)
    requires
        !path.contains('\0'),
    ensures
        is_c_string(path_buffer(path)),
{
    lemma_utf8_zero_byte(path);
    assert(path_buffer(path).drop_last() =~= encode_utf8(path));
}

/// An open that is admitted and then closed leaves nothing behind: the calls
/// of the three steps, made in order on a native layer that holds nothing,
/// end with a native layer that holds nothing. In between it holds what the
/// handle's ledger says.
pub proof fn lemma_open_close_releases(path: Seq<char>, hint: Option<Type>)
    ensures
        Ledger::empty().run(open_script(path, hint) + admit_script()) == TagModel::opened(
            path,
        ).ledger(),
        Ledger::empty().run(open_script(path, hint) + admit_script() + release_script())
            == Ledger::empty(),
{
    let begun = Ledger { contexts: 1, strings: false };
    lemma_run_two(Ledger::empty(), open_script(path, hint));
    lemma_run_two(begun, admit_script());
    lemma_run_two(begun, release_script());
    lemma_run_concat(Ledger::empty(), open_script(path, hint), admit_script());
    lemma_run_concat(Ledger::empty(), open_script(path, hint) + admit_script(), release_script());
}

/// An open that is refused leaves nothing behind either: the context that was
/// created for it is freed.
pub proof fn lemma_refused_open_releases(path: Seq<char>, hint: Option<Type>)
    ensures
        Ledger::empty().run(open_script(path, hint) + reject_script()) == Ledger::empty(),
{
    let begun = Ledger { contexts: 1, strings: false };
    lemma_run_two(Ledger::empty(), open_script(path, hint));
    lemma_run_one(begun, reject_script());
    lemma_run_concat(Ledger::empty(), open_script(path, hint), reject_script());
}

/// Closing releases all that the native layer holds for a handle, whatever
/// state the handle is in, text buffers before the context.
pub proof fn lemma_close_releases(tag: TagModel)
    ensures
        tag.ledger().run(tag.release()) == Ledger::empty(),
        tag.closed().ledger() == Ledger::empty(),
        tag.is_open() ==> tag.release() == seq![Call::<Seq<u8>>::FreeStrings, Call::FileFree],
{
    if tag.is_open() {
        lemma_run_two(tag.ledger(), tag.release());
    }
}

/// Closing twice is closing once: a closed handle stays as it is, and closing
/// it frees nothing again.
pub proof fn lemma_close_idempotent(tag: TagModel)
    ensures
        !tag.closed().is_open(),
        tag.closed().closed() == tag.closed(),
        tag.closed().release() == Seq::<CallModel>::empty(),
{
}

/// The handle's ledger follows the text buffers: a request for a text field
/// on an open handle leaves one outstanding, and the call that comes with the
/// decoded text frees it.
pub proof fn lemma_text_exchange_balanced(tag: TagModel, request: CallModel)
    requires
        tag.is_open(),
        request == Call::<Seq<u8>>::TagTitle || request == Call::<Seq<u8>>::TagArtist || request
            == Call::<Seq<u8>>::TagComment || request == Call::<Seq<u8>>::TagGenre,
    ensures
        tag.ledger().apply(request) == tag.with_strings().ledger(),
        tag.with_strings().ledger().apply(Call::FreeStrings)
            == tag.with_strings().without_strings().ledger(),
        tag.with_strings().without_strings().ledger() == (Ledger { contexts: 1, strings: false }),
{
}

/// A script of one call.
proof fn lemma_run_one(ledger: Ledger, calls: Seq<CallModel>)
    requires
        calls.len() == 1,
    ensures
        ledger.run(calls) == ledger.apply(calls[0]),
{
    reveal_with_fuel(Ledger::run, 2);
}

/// A script of two calls.
proof fn lemma_run_two(ledger: Ledger, calls: Seq<CallModel>)
    requires
        calls.len() == 2,
    ensures
        ledger.run(calls) == ledger.apply(calls[0]).apply(calls[1]),
{
    reveal_with_fuel(Ledger::run, 3);
}

/// Running one script after another is running the two as one.
pub proof fn lemma_run_concat(ledger: Ledger, first: Seq<CallModel>, second: Seq<CallModel>)
    ensures
        ledger.run(first + second) == ledger.run(first).run(second),
    decreases first.len(),
{
    if first.len() == 0 {
        assert(first + second =~= second);
    } else {
        assert((first + second).drop_first() =~= first.drop_first() + second);
        lemma_run_concat(ledger.apply(first[0]), first.drop_first(), second);
    }
}

} // verus!
