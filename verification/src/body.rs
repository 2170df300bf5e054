//! Materialization: the one step that turns a finished body into what is
//! sent.
//!
//! An empty body gives no bytes, a text body its form encoding, a multipart
//! body the stream of the multipart encoder, and any other value the bytes
//! that the serialization collaborator writes for it. Only this step can
//! fail, and it hands a failure on as it got it.

use crate::encoder::{
    add_file, add_stream, add_text, file_parts, is_file_part, new_multipart, opens_no_file,
    part_name, prepare, prepared_files, registered, text_part, Part,
};
use crate::error::Error;
use crate::fields::{Contents, EmptyFields, MultipartFields, TextFields};
use crate::file::FileField;
use crate::form::{encode_pairs, form_urlencoded};
use multipart::client::lazy::{LazyError, Multipart, PreparedFields};
use vstd::prelude::*;

verus! {

/// The serialization collaborator: it knows how to write a value of type `V`
/// as bytes.
///
/// `writes` and `fails` are what an implementation says of itself: which
/// bytes it may write for a value, and which failures it may report. They
/// have bodies here, which allow anything, so that an implementation written
/// in plain Rust, where neither can be stated, is one that says nothing. An
/// implementation that is verified states both.
pub trait RequestAdapter<V> {
    /// Whether the collaborator may write exactly `bytes` for `value` and
    /// report success.
    open spec fn writes(&self, value: &V, bytes: Seq<u8>) -> bool {
        true
    }

    /// Whether the collaborator may report the failure `error` for `value`.
    open spec fn fails(&self, value: &V, error: Error) -> bool {
        true
    }

    /// Writes `value` into `out`, which is empty when the library calls. On
    /// failure `out` may hold anything.
    fn serialize(&self, value: &V, out: &mut Vec<u8>) -> (verdict: Result<(), Error>)
        requires
            old(out)@.len() == 0,
        ensures
            match verdict {
                Ok(_) => self.writes(value, final(out)@),
                Err(error) => self.fails(value, error),
            },
    ;
}

/// Something that can be sent as the body of a request.
pub trait Body<A>: Sized + Send + 'static {
    /// What the body is sent from.
    type Readable;

    /// Turns the body into what is sent. `adapter` is asked only by bodies
    /// that cannot encode themselves.
    fn into_readable(self, adapter: &A) -> Result<Self::Readable, Error>;
}

/// Whether `parts` are what a body with the pairs `text` and the entries
/// `files` hands to the encoder: a text part for each pair, in the order of
/// the pairs, and behind them a file part for each entry, in the order of the
/// entries.
pub open spec fn holds_fields(
    parts: Seq<Part>,
    text: Seq<(String, String)>,
    files: Seq<(String, FileField)>,
) -> bool {
    &&& parts.len() == text.len() + files.len()
    &&& forall|i: int| 0 <= i < text.len() ==> parts[i] == text_part(#[trigger] text[i])
    &&& forall|j: int|
        0 <= j < files.len() ==> is_file_part(parts[text.len() + j], #[trigger] files[j])
}

/// Whether no entry of `files` names a path to open.
pub open spec fn no_paths(files: Seq<(String, FileField)>) -> bool {
    forall|i: int| 0 <= i < files.len() ==> !(#[trigger] files[i]).1.opens_file()
}

/// The encoder gets exactly as many text parts as there are pairs and as
/// many file parts as there are entries, each under its key and in its
/// place, and a text part with its text.
pub proof fn parts_in_order(
    parts: Seq<Part>,
    text: Seq<(String, String)>,
    files: Seq<(String, FileField)>,
)
    requires
        holds_fields(parts, text, files),
    ensures
        file_parts(parts) == files.len(),
        parts.len() - file_parts(parts) == text.len(),
        forall|i: int|
            0 <= i < text.len() ==> {
                &&& (#[trigger] parts[i]) is Text
                &&& part_name(parts[i]) == text[i].0@
                &&& parts[i]->text == text[i].1@
            },
        forall|k: int|
            text.len() <= k < parts.len() ==> {
                &&& !((#[trigger] parts[k]) is Text)
                &&& part_name(parts[k]) == files[k - text.len()].0@
            },
    decreases parts.len(),
{
    assert forall|i: int| 0 <= i < text.len() implies {
        &&& (#[trigger] parts[i]) is Text
        &&& part_name(parts[i]) == text[i].0@
        &&& parts[i]->text == text[i].1@
    } by {
        assert(parts[i] == text_part(text[i]));
    }
    assert forall|k: int| text.len() <= k < parts.len() implies {
        &&& !((#[trigger] parts[k]) is Text)
        &&& part_name(parts[k]) == files[k - text.len()].0@
    } by {
        let j = k - text.len();
        assert(is_file_part(parts[text.len() + j], files[j]));
    }
    if files.len() > 0 {
        let fewer = files.drop_last();
        assert(is_file_part(parts[text.len() + (files.len() - 1)], files[files.len() - 1]));
        assert forall|j: int| 0 <= j < fewer.len() implies is_file_part(
            parts.drop_last()[text.len() + j],
            #[trigger] fewer[j],
        ) by {
            assert(is_file_part(parts[text.len() + j], files[j]));
        }
        assert forall|i: int| 0 <= i < text.len() implies parts.drop_last()[i] == text_part(
            #[trigger] text[i],
        ) by {}
        parts_in_order(parts.drop_last(), text, fewer);
    } else if text.len() > 0 {
        let fewer = text.drop_last();
        assert(parts[text.len() - 1] == text_part(text[text.len() - 1]));
        assert forall|i: int| 0 <= i < fewer.len() implies parts.drop_last()[i] == text_part(
            #[trigger] fewer[i],
        ) by {
            assert(parts[i] == text_part(text[i]));
        }
        parts_in_order(parts.drop_last(), fewer, files);
    }
}

/// Where no entry names a path, none of the parts handed to the encoder has
/// a file to open.
pub proof fn no_paths_open_no_file(
    parts: Seq<Part>,
    text: Seq<(String, String)>,
    files: Seq<(String, FileField)>,
)
    requires
        holds_fields(parts, text, files),
        no_paths(files),
    ensures
        opens_no_file(parts),
{
    assert forall|k: int| 0 <= k < parts.len() implies !(#[trigger] parts[k] is File) by {
        if k < text.len() {
            assert(parts[k] == text_part(text[k]));
        } else {
            let j = k - text.len();
            assert(is_file_part(parts[text.len() + j], files[j]));
            assert(!files[j].1.opens_file());
        }
    }
}

impl MultipartFields {
    /// Hands every field to a new builder of the multipart encoder: the text
    /// pairs first, then the file entries, each group in its order.
    pub fn into_multipart(self) -> (multipart: Multipart<'static, 'static>)
        ensures
            holds_fields(registered(multipart), self.text_fields(), self.file_fields()),
    {
        let (text, files) = self.into_parts();
        let ghost pairs = text@;
        let ghost entries = files@;
        let mut multipart = new_multipart();
        for field in it: text.into_iter()
            invariant
                it.seq() == pairs,
                registered(multipart) == pairs.take(it.index() as int).map_values(
                    |field: (String, String)| text_part(field),
                ),
        {
            let (key, val) = field;
            add_text(&mut multipart, key, val);
        }
        assert forall|i: int| 0 <= i < pairs.len() implies registered(multipart)[i] == text_part(
            #[trigger] pairs[i],
        ) by {}
        for field in it: files.into_iter()
            invariant
                it.seq() == entries,
                registered(multipart).len() == pairs.len() + it.index(),
                forall|i: int|
                    0 <= i < pairs.len() ==> registered(multipart)[i] == text_part(
                        #[trigger] pairs[i],
                    ),
                forall|j: int|
                    0 <= j < it.index() ==> is_file_part(
                        registered(multipart)[pairs.len() + j],
                        #[trigger] entries[j],
                    ),
        {
            let ghost before = registered(multipart);
            let (key, file) = field;
            match file {
                FileField::Stream { stream, filename, content_type } => {
                    add_stream(&mut multipart, key, stream, filename, content_type);
                },
                FileField::File(file) => {
                    add_stream(&mut multipart, key, file, None, None);
                },
                FileField::Path(path) => {
                    add_file(&mut multipart, key, path);
                },
            }
            proof {
                let after = registered(multipart);
                assert(after.drop_last() == before);
                assert(after.len() == before.len() + 1);
                assert(is_file_part(after.last(), field));
                assert forall|k: int| 0 <= k < before.len() implies after[k] == before[k] by {
                    assert(after.drop_last()[k] == after[k]);
                }
            }
        }
        multipart
    }
}

/// What the encoder's outcome becomes: the prepared stream as it is, or the
/// encoder's error as a failure of preparation.
pub fn prepared(outcome: Result<PreparedFields<'static>, LazyError<'static, std::io::Error>>) -> (body:
    Result<PreparedFields<'static>, Error>)
    ensures
        body == match outcome {
            Ok(stream) => Ok::<PreparedFields<'static>, Error>(stream),
            Err(error) => Err(Error::MultipartPreparation(error)),
        },
{
    match outcome {
        Ok(stream) => Ok(stream),
        Err(error) => Err(Error::MultipartPreparation(error)),
    }
}

/// What the collaborator's verdict becomes, `written` being what it left in
/// the buffer: on success exactly those bytes, on failure the failure alone.
pub fn serialized(written: Vec<u8>, verdict: Result<(), Error>) -> (body: Result<Vec<u8>, Error>)
    ensures
        body == match verdict {
            Ok(_) => Ok::<Vec<u8>, Error>(written),
            Err(error) => Err(error),
        },
{
    match verdict {
        Ok(_) => Ok(written),
        Err(error) => Err(error),
    }
}

impl<A> Body<A> for EmptyFields {
    type Readable = Vec<u8>;

    /// No bytes at all.
    fn into_readable(self, adapter: &A) -> (body: Result<Vec<u8>, Error>)
        ensures
            body matches Ok(bytes) && bytes@.len() == 0,
    {
        Ok(Vec::new())
    }
}

impl<A> Body<A> for TextFields {
    type Readable = String;

    /// The form encoding of the pairs, in their order.
    fn into_readable(self, adapter: &A) -> (body: Result<String, Error>)
        ensures
            body matches Ok(encoded) && encoded@ == form_urlencoded(self@),
    {
        Ok(encode_pairs(self))
    }
}

impl<A> Body<A> for MultipartFields {
    type Readable = PreparedFields<'static>;

    /// The stream that the multipart encoder prepares from the fields, handed
    /// over as [`MultipartFields::into_multipart`] says. It holds one file
    /// stream for each file entry; how the encoder lays the parts out, and in
    /// which order, is its own affair. Materialization fails only as a
    /// failure of preparation, and only where an entry names a path.
    fn into_readable(self, adapter: &A) -> (body: Result<PreparedFields<'static>, Error>)
        ensures
            no_paths(self.file_fields()) ==> body is Ok,
            body matches Ok(stream) ==> prepared_files(stream) == self.file_fields().len(),
            body matches Err(error) ==> error is MultipartPreparation && !no_paths(
                self.file_fields(),
            ),
    {
        let multipart = self.into_multipart();
        proof {
            parts_in_order(registered(multipart), self.text_fields(), self.file_fields());
            if no_paths(self.file_fields()) {
                no_paths_open_no_file(
                    registered(multipart),
                    self.text_fields(),
                    self.file_fields(),
                );
            }
        }
        prepared(prepare(multipart))
    }
}

/// A value that is sent whole, as the bytes that the serialization
/// collaborator writes for it.
pub struct Plain<V>(pub V);

impl<V: Send + 'static, A: RequestAdapter<V>> Body<A> for Plain<V> {
    type Readable = Vec<u8>;

    /// Asks `adapter` to write the value into an empty buffer. The body is
    /// the bytes that it wrote for this value, all of them and no others, or
    /// else the failure that it reported for this value, and then no bytes.
    fn into_readable(self, adapter: &A) -> (body: Result<Vec<u8>, Error>)
        ensures
            match body {
                Ok(bytes) => adapter.writes(&self.0, bytes@),
                Err(error) => adapter.fails(&self.0, error),
            },
    {
        let mut buffer: Vec<u8> = Vec::new();
        let verdict = adapter.serialize(&self.0, &mut buffer);
        serialized(buffer, verdict)
    }
}

} // verus!
