//! The multipart form that carries the audio and the text fields, built
//! with `reqwest`.

use vstd::prelude::*;
use vstd::string::*;
use vstd::utf8::encode_utf8;
use crate::client::{reqwest_error_message, reqwest_error_text};
use crate::error::{Failure, SttError};
use crate::form::{fields_view, FormField};
use reqwest::multipart::{Form, Part};

verus! {

/// One part of a form as a mathematical value: the bytes of its body, and
/// the file name and the media type where it has them.
pub struct PartModel {
    pub body: Seq<u8>,
    pub file_name: Option<Seq<char>>,
    pub media_type: Option<Seq<char>>,
}

#[verifier::external_type_specification]
#[verifier::external_body]
pub struct ExForm(Form);

/// The parts of a form in the order they were added, each with the name of
/// its field.
pub uninterp spec fn form_parts(form: Form) -> Seq<(Seq<char>, PartModel)>;

/// The media type that a text is read as, in the notation it is kept in;
/// nothing for a text that is no media type.
pub uninterp spec fn parsed_media_type(content: Seq<char>) -> Option<Seq<char>>;

/// A form without parts.
pub open spec fn no_parts() -> Seq<(Seq<char>, PartModel)> {
    Seq::empty()
}

/// A part that holds a text and nothing else.
pub open spec fn text_part(value: Seq<char>) -> PartModel {
    PartModel { body: encode_utf8(value), file_name: None, media_type: None }
}

/// A part that holds a file.
pub open spec fn file_part(bytes: Seq<u8>, file_name: Seq<char>, media_type: Seq<char>) -> PartModel {
    PartModel { body: bytes, file_name: Some(file_name), media_type: Some(media_type) }
}

/// The parts that text fields become.
pub open spec fn text_parts(fields: Seq<(Seq<char>, Seq<char>)>) -> Seq<(Seq<char>, PartModel)> {
    Seq::new(fields.len(), |i: int| (fields[i].0, text_part(fields[i].1)))
}

/// The binary part of the form: the encoded audio and how it is labelled.
#[derive(Debug)]
pub struct AudioPart {
    /// The name of the form field.
    pub field_name: String,
    /// The file name given for the audio.
    pub file_name: String,
    /// The media type given for the audio.
    pub mime_type: String,
    /// The container bytes.
    pub bytes: Vec<u8>,
}

/// The parts of a form that sends the audio first and the fields after it.
pub open spec fn form_layout(
    audio: AudioPart,
    media_type: Seq<char>,
    fields: Seq<(Seq<char>, Seq<char>)>,
) -> Seq<(Seq<char>, PartModel)> {
    seq![(audio.field_name@, file_part(audio.bytes@, audio.file_name@, media_type))] + text_parts(
        fields,
    )
}

/// Makes a form with `Form::new`. Trusted: it has no parts.
#[verifier::external_body]
fn empty_form() -> (r: Form)
    ensures
        form_parts(r) == no_parts(),
{
    Form::new()
}

/// Adds a text field with `Form::text`. Trusted: the form gains one part at
/// its end, under the given name, whose body is the text.
#[verifier::external_body]
fn add_text(form: Form, name: String, value: String) -> (r: Form)
    ensures
        form_parts(r) == form_parts(form).push((name@, text_part(value@))),
{
    form.text(name, value)
}

/// Adds a file with `Part::bytes`, `Part::file_name`, `Part::mime_str` and
/// `Form::part`. Trusted: it fails exactly when the media type is not read
/// as one; otherwise the form gains one part at its end, under the given
/// name, with the bytes, the file name and the media type as it was read.
#[verifier::external_body]
fn add_file(form: Form, name: String, bytes: Vec<u8>, file_name: String, media_type: &str) -> (r:
    Result<Form, reqwest::Error>)
    ensures
        match r {
            Ok(filled) => parsed_media_type(media_type@) is Some && form_parts(filled)
                == form_parts(form).push(
                (name@, file_part(bytes@, file_name@, parsed_media_type(media_type@)->0)),
            ),
            Err(_) => parsed_media_type(media_type@) is None,
        },
{
    let part = Part::bytes(bytes).file_name(file_name).mime_str(media_type)?;
    Ok(form.part(name, part))
}

/// Wraps container bytes as the audio part of the form.
pub fn audio_part(bytes: Vec<u8>) -> (r: AudioPart)
    ensures
        r.field_name@ == "file"@,
        r.file_name@ == "audio.wav"@,
        r.mime_type@ == "audio/wav"@,
        r.bytes == bytes,
{
    AudioPart {
        field_name: String::from_str("file"),
        file_name: String::from_str("audio.wav"),
        mime_type: String::from_str("audio/wav"),
        bytes,
    }
}

/// Builds the form of a request: the audio as a file part, then each text
/// field in order. It fails exactly when the audio's media type is not read
/// as one.
pub fn multipart_form(audio: AudioPart, fields: Vec<FormField>) -> (r: Result<Form, SttError>)
    ensures
        match r {
            Ok(form) => parsed_media_type(audio.mime_type@) is Some && form_parts(form)
                == form_layout(
                audio,
                parsed_media_type(audio.mime_type@)->0,
                fields_view(fields@),
            ),
            Err(error) => parsed_media_type(audio.mime_type@) is None && error@ is Multipart,
        },
{
    let ghost layout = form_layout(
        audio,
        parsed_media_type(audio.mime_type@)->0,
        fields_view(fields@),
    );
    let attached = add_file(
        empty_form(),
        audio.field_name,
        audio.bytes,
        audio.file_name,
        audio.mime_type.as_str(),
    );
    let mut form = match attached {
        Ok(form) => form,
        Err(error) => {
            return Err(SttError::Multipart { detail: reqwest_error_text(&error) });
        },
    };
    let mut i: usize = 0;
    assert(form_parts(form) =~= layout.subrange(0, 1));
    while i < fields.len()
        invariant
            i <= fields.len(),
            layout.len() == 1 + fields.len(),
            forall|k: int|
                0 <= k < fields.len() ==> #[trigger] layout[1 + k] == (
                    fields@[k].name@,
                    text_part(fields@[k].value@),
                ),
            form_parts(form) == layout.subrange(0, 1 + i),
        decreases fields.len() - i,
    {
        let name = fields[i].name.clone();
        let value = fields[i].value.clone();
        form = add_text(form, name, value);
        assert(form_parts(form) =~= layout.subrange(0, 2 + i)) by {
            assert(layout[1 + i] == (fields@[i as int].name@, text_part(fields@[i as int].value@)));
        }
        i += 1;
    }
    assert(layout.subrange(0, 1 + i) =~= layout);
    Ok(form)
}

} // verus!
