//! Building multipart/form-data bodies whose final encoding is done by a
//! host-provided form sink (a browser `FormData`).
//!
//! A [`Form`] is an ordered list of named [`Part`]s. [`Form::encode`] decides,
//! field by field, which operation the sink receives, and hands those
//! operations back as plain values ([`FieldOp`]) for the host side to perform.
pub mod error;
pub mod media_type;
pub mod multipart;
pub mod encode;
pub mod laws;

pub use error::Error;
pub use media_type::MediaType;
pub use multipart::{Body, Form, FormParts, Part, PartMetadata, PartProps};
pub use encode::{BodyView, Chunk, ChunkView, FieldOp, OpView, PartView};
