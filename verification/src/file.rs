//! Where the bytes of a file field come from.

use mime::Mime;
use std::io::Read;
use std::path::PathBuf;
use vstd::prelude::*;

verus! {

/// The content-type descriptor of the `mime` crate. The library attaches it
/// to file parts and never looks inside.
#[verifier::external_type_specification]
#[verifier::external_body]
pub struct ExMime(Mime);

/// An owned filesystem path of the standard library, carried unread.
#[verifier::external_type_specification]
#[verifier::external_body]
pub struct ExPathBuf(PathBuf);

/// An owned source of bytes that may be handed to another thread.
///
/// The verifier cannot see into a boxed reader, so the whole struct is kept
/// from it: a `ByteSource` is a value with identity and nothing else. It is
/// never read here, only passed on to the multipart encoder.
#[verifier::external_body]
pub struct ByteSource {
    pub(crate) reader: Box<dyn Read + Send>,
}

impl ByteSource {
    /// Boxes `reader` with `Box::new`. Nothing is claimed of the result.
    #[verifier::external_body]
    pub fn new<R: Read + Send + 'static>(reader: R) -> (source: ByteSource) {
        ByteSource { reader: Box::new(reader) }
    }
}

/// The data of one file field.
pub enum FileField {
    /// A byte source held in the program, with the file name and content
    /// type to announce for it, where known.
    Stream { stream: ByteSource, filename: Option<String>, content_type: Option<Mime> },
    /// An already open file, owned as its byte source. Neither a name nor a
    /// content type can be had from it.
    File(ByteSource),
    /// A path, opened only when the body is materialized.
    Path(PathBuf),
}

impl FileField {
    /// A stream field over `stream`, announced under `filename` and
    /// `content_type` where given.
    pub fn from_stream(
        stream: ByteSource,
        filename: Option<String>,
        content_type: Option<Mime>,
    ) -> (file: FileField)
        ensures
            file == (FileField::Stream { stream, filename, content_type }),
    {
        FileField::Stream { stream, filename, content_type }
    }

    /// Whether materializing this field has to open a file.
    pub open spec fn opens_file(self) -> bool {
        self is Path
    }
}

} // verus!
