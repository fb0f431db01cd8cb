//! Language-neutral MXF reader and writer logic over a bmx core.
//!
//! Essence goes in and essence comes out. A frame is the KLV payload with the
//! key and length stripped.

pub mod counting;
pub mod error;
pub mod flags;
pub mod native;
pub mod pyfile;
pub mod reader;
pub mod sink;
pub mod source;
pub mod text;
pub mod types;
pub mod writer;

pub use counting::CountingSource;
pub use error::Error;
pub use sink::ByteSink;
pub use source::{ByteSource, ReadAhead, SeekFrom};
pub use types::{
    ClipSpec, DescriptorKind, EssenceType, Flavour, Frame, Identity, Package, PixelComponent,
    Rational, ReadOptions, Timecode, Track, TrackKind, TrackSpec, XmlMetadata,
};
