//! The three states of a body under construction and the transitions
//! between them.
//!
//! A body starts as [`EmptyFields`]. Adding text makes it [`TextFields`];
//! adding a file, from any state, makes it [`MultipartFields`], and nothing
//! leads back. Every transition consumes the state it starts from.

use crate::file::FileField;
use vstd::prelude::*;

verus! {

/// What a body under construction holds, in the order of insertion. Keys
/// may repeat.
pub trait Contents {
    /// The text pairs added so far.
    spec fn text_fields(&self) -> Seq<(String, String)>;

    /// The file entries added so far.
    spec fn file_fields(&self) -> Seq<(String, FileField)>;
}

/// A state of a body under construction, with the two ways to extend it.
pub trait Fields: Contents + Sized {
    /// The state after text has been added.
    type WithText: Contents;

    /// Appends the pair `(key, val)`.
    fn with_text(self, key: String, val: String) -> (next: Self::WithText)
        ensures
            next.text_fields() == self.text_fields().push((key, val)),
            next.file_fields() == self.file_fields(),
    ;

    /// Appends the file entry `(key, file)`; the body is multipart from here on.
    fn with_file(self, key: String, file: FileField) -> (next: MultipartFields)
        ensures
            next.text_fields() == self.text_fields(),
            next.file_fields() == self.file_fields().push((key, file)),
    ;
}

/// The initial state: no fields.
pub struct EmptyFields;

impl Contents for EmptyFields {
    open spec fn text_fields(&self) -> Seq<(String, String)> {
        Seq::empty()
    }

    open spec fn file_fields(&self) -> Seq<(String, FileField)> {
        Seq::empty()
    }
}

impl Fields for EmptyFields {
    type WithText = TextFields;

    fn with_text(self, key: String, val: String) -> (next: TextFields)
        ensures
            next@ == seq![(key, val)],
    {
        let text: TextFields = Vec::new();
        text.with_text(key, val)
    }

    fn with_file(self, key: String, file: FileField) -> (next: MultipartFields)
        ensures
            next.text_fields() == Seq::<(String, String)>::empty(),
            next.file_fields() == seq![(key, file)],
    {
        MultipartFields::new().with_file(key, file)
    }
}

/// Text pairs only, in the order of insertion.
pub type TextFields = Vec<(String, String)>;

/// Appends the pair `(key, val)` to `text`.
pub fn push_text_field(text: &mut TextFields, key: String, val: String)
    ensures
        final(text)@ == old(text)@.push((key, val)),
{
    text.push((key, val));
}

impl Contents for TextFields {
    open spec fn text_fields(&self) -> Seq<(String, String)> {
        self@
    }

    open spec fn file_fields(&self) -> Seq<(String, FileField)> {
        Seq::empty()
    }
}

impl Fields for TextFields {
    type WithText = TextFields;

    fn with_text(self, key: String, val: String) -> (next: TextFields)
        ensures
            next@ == self@.push((key, val)),
    {
        let mut text = self;
        push_text_field(&mut text, key, val);
        text
    }

    fn with_file(self, key: String, file: FileField) -> (next: MultipartFields)
        ensures
            next.text_fields() == self@,
            next.file_fields() == seq![(key, file)],
    {
        MultipartFields::from_text(self).with_file(key, file)
    }
}

/// Text pairs and file entries, each in the order of insertion.
pub struct MultipartFields {
    text: TextFields,
    files: Vec<(String, FileField)>,
}

impl MultipartFields {
    /// A multipart body without any field.
    pub fn new() -> (fields: MultipartFields)
        ensures
            fields.text_fields() == Seq::<(String, String)>::empty(),
            fields.file_fields() == Seq::<(String, FileField)>::empty(),
    {
        MultipartFields::from_text(Vec::new())
    }

    /// A multipart body that holds the pairs of `text` and no file yet.
    pub fn from_text(text: TextFields) -> (fields: MultipartFields)
        ensures
            fields.text_fields() == text@,
            fields.file_fields() == Seq::<(String, FileField)>::empty(),
    {
        MultipartFields { text, files: Vec::new() }
    }

    /// Takes the body apart into its text pairs and its file entries.
    pub fn into_parts(self) -> (parts: (TextFields, Vec<(String, FileField)>))
        ensures
            parts.0@ == self.text_fields(),
            parts.1@ == self.file_fields(),
    {
        (self.text, self.files)
    }
}

impl Contents for MultipartFields {
    closed spec fn text_fields(&self) -> Seq<(String, String)> {
        self.text@
    }

    closed spec fn file_fields(&self) -> Seq<(String, FileField)> {
        self.files@
    }
}

impl Fields for MultipartFields {
    type WithText = MultipartFields;

    fn with_text(self, key: String, val: String) -> (next: MultipartFields) {
        let mut fields = self;
        push_text_field(&mut fields.text, key, val);
        fields
    }

    fn with_file(self, key: String, file: FileField) -> (next: MultipartFields) {
        let mut fields = self;
        fields.files.push((key, file));
        fields
    }
}

/// A value that can be added to a body as one field.
///
/// Text goes in as a text pair and a [`FileField`] as a file entry: the kind
/// of the value picks the transition, so a file cannot be added as text.
pub trait AddField<F: Fields>: Sized {
    /// The state after the value has been added.
    type Output: Contents;

    /// The text pairs that adding the value under `key` appends.
    spec fn text_added(self, key: String) -> Seq<(String, String)>;

    /// The file entries that adding the value under `key` appends.
    spec fn files_added(self, key: String) -> Seq<(String, FileField)>;

    /// Adds the value to `to` under `key`.
    fn add_to(self, key: String, to: F) -> (next: Self::Output)
        ensures
            next.text_fields() == to.text_fields() + self.text_added(key),
            next.file_fields() == to.file_fields() + self.files_added(key),
    ;
}

impl<F: Fields> AddField<F> for String {
    type Output = F::WithText;

    open spec fn text_added(self, key: String) -> Seq<(String, String)> {
        seq![(key, self)]
    }

    open spec fn files_added(self, key: String) -> Seq<(String, FileField)> {
        Seq::empty()
    }

    /// Goes the way of [`Fields::with_text`].
    fn add_to(self, key: String, to: F) -> (next: F::WithText)
        ensures
            next.text_fields() == to.text_fields().push((key, self)),
            next.file_fields() == to.file_fields(),
    {
        to.with_text(key, self)
    }
}

impl<F: Fields> AddField<F> for FileField {
    type Output = MultipartFields;

    open spec fn text_added(self, key: String) -> Seq<(String, String)> {
        Seq::empty()
    }

    open spec fn files_added(self, key: String) -> Seq<(String, FileField)> {
        seq![(key, self)]
    }

    /// Goes the way of [`Fields::with_file`].
    fn add_to(self, key: String, to: F) -> (next: MultipartFields)
        ensures
            next.text_fields() == to.text_fields(),
            next.file_fields() == to.file_fields().push((key, self)),
    {
        to.with_file(key, self)
    }
}

} // verus!
