//! Verified boundary layer for the TagLib C API.
//!
//! TagLib reads and writes the metadata of audio files. This crate holds what
//! a binding to its C API has to get right and what can be proved of it: the
//! life of a file handle, the order in which native resources are released,
//! the encoding of text on its way in and out, and the integer codes of the
//! API's selectors.
//!
//! The crate makes no native call. An operation returns the calls to make as
//! values of [`NativeCall`], and a driver outside this crate makes them, in the
//! order given, on the file that the handle stands for. Where the native layer
//! answers with something that decides what comes next, the answer goes to a
//! further operation: the validity of a new context to [`Opening::finish`], a
//! text buffer to [`Tag::receive`]. Numbers are the driver's to hand on as they
//! are.

pub mod codes;
pub mod config;
pub mod error;
pub mod marshal;
pub mod native;
pub mod tag;

pub use codes::{ID3V2_Encoding, Properties, Type};
pub use config::{setUnicode, setidv3v2DefaultEncoding, EncodingConfig};
pub use error::Error;
pub use marshal::{marshal, unmarshal};
pub use native::{Call, NativeCall};
pub use tag::{Opening, State, Tag};
