//! A uniform incremental compression engine.
//!
//! One interface drives codecs of very different abilities: some stream
//! natively, some only turn one whole buffer into another, some must run on a
//! worker of their own. A codec describes itself through a function table,
//! and the engine makes up for whatever the table leaves out.
//!
//! - [`codec`] holds what a codec declares and provides, and the descriptor
//!   that the engine keeps of it; [`copy`] is the one codec that comes with
//!   the engine, the identity.
//! - [`option`] holds the typed, validated settings of a codec.
//! - [`stream`] is the incremental engine: a state machine over windows of
//!   input and output.
//! - [`oneshot`] compresses and decompresses whole buffers, through the
//!   buffer-to-buffer functions of a codec or, where it has none, through a
//!   stream.
//! - [`splice`] moves data from a source to a sink through a stream and two
//!   small buffers.
//! - [`context`] is the registry that resolves names and file extensions to
//!   codecs.
//! - [`status`] holds the status codes, [`version`] the version of the
//!   library, [`object`] the reference count of shared objects, and
//!   [`buffer`] and [`text`] the helpers for bytes and for the text of
//!   options.

pub mod buffer;
pub mod codec;
pub mod context;
pub mod copy;
pub mod object;
pub mod oneshot;
pub mod option;
pub mod splice;
pub mod status;
pub mod stream;
pub mod text;
pub mod version;

pub use crate::codec::{SquashCodec, SquashCodecFuncs, SquashCodecImpl, SquashCodecInfo};
pub use crate::context::SquashContext;
pub use crate::copy::SquashCopy;
pub use crate::object::SquashObject;
pub use crate::option::{
    SquashOptionInfo, SquashOptionInfoEnumInt, SquashOptionInfoEnumString,
    SquashOptionInfoEnumStringMap, SquashOptionInfoRangeInt, SquashOptionInfoRangeSize,
    SquashOptionInfoUnion, SquashOptionType, SquashOptionValue, SquashOptions,
};
pub use crate::splice::{SquashSplice, SquashSpliceAction};
pub use crate::status::{squash_error, squash_status_to_string, SquashStatus};
pub use crate::stream::{
    SquashOperation, SquashStream, SquashStreamPrivate, SquashStreamState, SquashStreamType,
};
pub use crate::version::{
    squash_version, squash_version_api, SQUASH_VERSION, SQUASH_VERSION_EXTRACT_MAJOR,
    SQUASH_VERSION_EXTRACT_MINOR, SQUASH_VERSION_EXTRACT_REVISION,
};
