//! Bodies of outgoing requests: a builder for form fields that tracks, in its
//! type, whether the body is empty, a plain form, or a multipart payload, and
//! the one-shot step that turns a finished body into the bytes to transmit.

pub mod body;
pub mod encoder;
pub mod error;
pub mod fields;
pub mod file;
pub mod form;

pub use crate::body::{prepared, serialized, Body, Plain, RequestAdapter};
pub use crate::error::Error;
pub use crate::fields::{push_text_field, AddField, Contents, EmptyFields, Fields, MultipartFields, TextFields};
pub use crate::file::{ByteSource, FileField};
