//! The encodings in force at the native boundary.

use vstd::prelude::*;
use crate::codes::ID3V2_Encoding;
use crate::native::{Call, NativeCall};

verus! {

/// How text crosses the boundary, and how the native layer writes new ID3v2
/// frames.
///
/// The native layer keeps both settings for the whole process. This value is
/// the caller's record of them: every operation that passes text takes it, and
/// the two functions that change it return the call that changes the native
/// side with it. The caller keeps one such value per process, and keeps all use
/// of it on one thread or behind one lock.
#[derive(Clone, Copy, Debug, PartialEq, Eq)]
pub struct EncodingConfig {
    unicode: bool,
    default_encoding: Option<ID3V2_Encoding>,
}

impl EncodingConfig {
    /// Whether boundary text is UTF-8 (`true`) or Latin-1 (`false`).
    pub closed spec fn spec_unicode(&self) -> bool {
        self.unicode
    }

    /// The encoding set for new ID3v2 frames, if one was set.
    pub closed spec fn spec_default_encoding(&self) -> Option<ID3V2_Encoding> {
        self.default_encoding
    }

    /// The settings of a process that has changed neither: boundary text is
    /// UTF-8, and the encoding of new frames is the native layer's own choice.
    pub fn new() -> (config: EncodingConfig)
        ensures
            config.spec_unicode(),
            config.spec_default_encoding() is None,
    {
        EncodingConfig { unicode: true, default_encoding: None }
    }

    /// Whether boundary text is UTF-8 (`true`) or Latin-1 (`false`).
    #[verifier::when_used_as_spec(spec_unicode)]
    pub fn unicode(&self) -> (unicode: bool)
        ensures
            unicode == self.spec_unicode(),
    {
        self.unicode
    }

    /// The encoding set for new ID3v2 frames, if one was set.
    #[verifier::when_used_as_spec(spec_default_encoding)]
    pub fn default_encoding(&self) -> (encoding: Option<ID3V2_Encoding>)
        ensures
            encoding == self.spec_default_encoding(),
    {
        self.default_encoding
    }
}

/// Chooses UTF-8 (`true`) or Latin-1 (`false`) for all boundary text from now
/// on, and returns the call that tells the native layer.
#[allow(non_snake_case)]
pub fn setUnicode(config: &mut EncodingConfig, unicode: bool) -> (call: NativeCall)
    ensures
        final(config).spec_unicode() == unicode,
        final(config).spec_default_encoding() == old(config).spec_default_encoding(),
        call@ == Call::<Seq<u8>>::SetStringsUnicode(if unicode { 1i32 } else { 0i32 }),
{
    config.unicode = unicode;
    if unicode {
        Call::SetStringsUnicode(1)
    } else {
        Call::SetStringsUnicode(0)
    }
}

/// Chooses the encoding of ID3v2 frames written from now on, and returns the
/// call that tells the native layer.
#[allow(non_snake_case)]
pub fn setidv3v2DefaultEncoding(config: &mut EncodingConfig, coding: ID3V2_Encoding) -> (call:
    NativeCall)
    ensures
        final(config).spec_default_encoding() == Some(coding),
        final(config).spec_unicode() == old(config).spec_unicode(),
        call@ == Call::<Seq<u8>>::SetDefaultTextEncoding(coding.spec_code()),
{
    config.default_encoding = Some(coding);
    Call::SetDefaultTextEncoding(coding.code())
}

} // verus!
