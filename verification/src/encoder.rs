//! The multipart encoder of the `multipart` crate, as far as the library
//! uses it: a builder that collects parts, and the step that turns them into
//! one stream.
//!
//! Nothing in this file is proved. Each item says what it takes on trust.

use crate::file::{ByteSource, FileField};
use mime::Mime;
use multipart::client::lazy::{LazyError, Multipart, PreparedFields};
use std::path::PathBuf;
use vstd::prelude::*;

verus! {

/// `multipart::client::lazy::Multipart`: the builder. What it holds is
/// spoken of through [`registered`].
#[verifier::external_type_specification]
#[verifier::external_body]
pub struct ExMultipart<'n, 'd>(Multipart<'n, 'd>);

/// `multipart::client::lazy::PreparedFields`: the finished body, a reader
/// over the whole multipart stream.
#[verifier::external_type_specification]
#[verifier::external_body]
pub struct ExPreparedFields<'d>(PreparedFields<'d>);

/// `multipart::client::lazy::LazyError`: what the encoder reports when it
/// cannot prepare a body.
#[verifier::external_type_specification]
#[verifier::external_body]
#[verifier::reject_recursive_types(E)]
pub struct ExLazyError<'a, E>(LazyError<'a, E>);

/// `std::io::Error`: the cause inside a [`LazyError`].
#[verifier::external_type_specification]
#[verifier::external_body]
pub struct ExIoError(std::io::Error);

/// One part as the builder holds it.
pub enum Part {
    /// A text part.
    Text { name: Seq<char>, text: Seq<char> },
    /// A file part fed from a byte source. The builder always holds a
    /// content type for it: the one it was given, or one of its own choice.
    Stream { name: Seq<char>, stream: ByteSource, filename: Option<Seq<char>>, content_type: Mime },
    /// A file part fed from the file at a path, which the encoder opens.
    File { name: Seq<char>, path: PathBuf },
}

/// A name for what a `multipart::client::lazy::Multipart` holds: its parts,
/// oldest first. Nothing is known of it but what the operations below say.
pub uninterp spec fn registered(multipart: Multipart<'static, 'static>) -> Seq<Part>;

/// A name for the number of file streams that a
/// `multipart::client::lazy::PreparedFields` holds when it is made.
pub uninterp spec fn prepared_files(stream: PreparedFields<'static>) -> nat;

/// The name under which a part goes.
pub open spec fn part_name(part: Part) -> Seq<char> {
    match part {
        Part::Text { name, .. } => name,
        Part::Stream { name, .. } => name,
        Part::File { name, .. } => name,
    }
}

/// The text part that the pair `field` becomes.
pub open spec fn text_part(field: (String, String)) -> Part {
    Part::Text { name: field.0@, text: field.1@ }
}

/// The file part that the path `path` becomes under `name`.
pub open spec fn path_part(name: String, path: PathBuf) -> Part {
    Part::File { name: name@, path }
}

/// Whether `part` is a stream part over `stream` under `name`, with the file
/// name as given and with the content type that was given, if one was.
pub open spec fn is_stream_part(
    part: Part,
    name: String,
    stream: ByteSource,
    filename: Option<String>,
    content_type: Option<Mime>,
) -> bool {
    &&& part is Stream
    &&& part->Stream_name == name@
    &&& part->stream == stream
    &&& part->filename == match filename {
        Some(given) => Some(given@),
        None => None,
    }
    &&& content_type matches Some(given) ==> part->content_type == given
}

/// Whether `part` is the file part that the entry `field` becomes. An open
/// file gives a stream part without a file name, under a content type that
/// the builder picks.
pub open spec fn is_file_part(part: Part, field: (String, FileField)) -> bool {
    match field.1 {
        FileField::Stream { stream, filename, content_type } => is_stream_part(
            part,
            field.0,
            stream,
            filename,
            content_type,
        ),
        FileField::File(stream) => is_stream_part(part, field.0, stream, None, None),
        FileField::Path(path) => part == path_part(field.0, path),
    }
}

/// Whether none of `parts` has a file to open.
pub open spec fn opens_no_file(parts: Seq<Part>) -> bool {
    forall|i: int| 0 <= i < parts.len() ==> !(#[trigger] parts[i] is File)
}

/// How many of `parts` are file parts, fed from a source or from a path.
pub open spec fn file_parts(parts: Seq<Part>) -> nat
    decreases parts.len(),
{
    if parts.len() == 0 {
        0
    } else if parts.last() is Text {
        file_parts(parts.drop_last())
    } else {
        file_parts(parts.drop_last()) + 1
    }
}

/// Calls `Multipart::new`. Taken on trust: the new builder holds no part.
#[verifier::external_body]
pub(crate) fn new_multipart() -> (multipart: Multipart<'static, 'static>)
    ensures
        registered(multipart) == Seq::<Part>::empty(),
{
    Multipart::new()
}

/// Calls `Multipart::add_text`. Taken on trust: the builder then holds the
/// text part `name`, `text` behind the parts it held.
#[verifier::external_body]
pub(crate) fn add_text(multipart: &mut Multipart<'static, 'static>, name: String, text: String)
    ensures
        registered(*final(multipart)) == registered(*old(multipart)).push(text_part((name, text))),
{
    multipart.add_text(name, text);
}

/// Calls `Multipart::add_stream`. Taken on trust: the builder then holds,
/// behind the parts it held, one stream part more, over `stream` and under
/// `name` and `filename`. Its content type is the one given; where none is
/// given the builder puts one in, of which nothing is claimed.
#[verifier::external_body]
pub(crate) fn add_stream(
    multipart: &mut Multipart<'static, 'static>,
    name: String,
    stream: ByteSource,
    filename: Option<String>,
    content_type: Option<Mime>,
)
    ensures
        registered(*final(multipart)).len() == registered(*old(multipart)).len() + 1,
        registered(*final(multipart)).drop_last() == registered(*old(multipart)),
        is_stream_part(registered(*final(multipart)).last(), name, stream, filename, content_type),
{
    multipart.add_stream(name, stream.reader, filename, content_type);
}

/// Calls `Multipart::add_file`. Taken on trust: the builder then holds a
/// file part for `path` behind the parts it held. The path is not looked at
/// yet.
#[verifier::external_body]
pub(crate) fn add_file(multipart: &mut Multipart<'static, 'static>, name: String, path: PathBuf)
    ensures
        registered(*final(multipart)) == registered(*old(multipart)).push(path_part(name, path)),
{
    multipart.add_file(name, path);
}

/// Calls `Multipart::prepare`, which opens the files of the file parts and
/// lays out the stream under a boundary drawn at random. Taken on trust:
/// only opening or measuring a file can make it fail, so a builder without a
/// file part to open is always prepared; and a stream that comes back holds
/// one file stream for each file part of the builder. Nothing is claimed of
/// the bytes of the stream, nor of the order in which it brings the parts.
#[verifier::external_body]
pub(crate) fn prepare(multipart: Multipart<'static, 'static>) -> (outcome: Result<
    PreparedFields<'static>,
    LazyError<'static, std::io::Error>,
>)
    ensures
        opens_no_file(registered(multipart)) ==> outcome is Ok,
        outcome matches Ok(stream) ==> prepared_files(stream) == file_parts(registered(multipart)),
{
    let mut multipart = multipart;
    multipart.prepare()
}

} // verus!
