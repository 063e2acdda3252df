//! Requests made ready to send: the target, the client, and for a
//! transcription the form with the audio and the text fields.

use vstd::prelude::*;
use vstd::string::*;
use crate::client::{client_default_headers, client_headers, create_client};
use crate::endpoint::{models_target, models_url, transcription_target, transcription_url};
use crate::error::{Failure, SttError};
use crate::form::{
    fields_view, form_fields, hint_view, lemma_translation_sends_no_language,
    transcription_fields, FormField,
};
use crate::headers::{default_headers, invalid_value_detail, is_usable_key};
use crate::multipart::{
    audio_part, file_part, form_parts, multipart_form, parsed_media_type, text_parts, PartModel,
};
use crate::provider::TranscriptionProvider;
use crate::wav::{encode_wav_bytes, encoded_audio, too_long_detail, MAX_SAMPLES};
use reqwest::multipart::Form;

verus! {

/// A transcription request, ready to be posted as a multipart form.
#[derive(Debug)]
pub struct TranscriptionRequest {
    /// Where the form is posted.
    pub url: String,
    /// The client that posts it.
    pub client: reqwest::Client,
    /// The form: the audio, then the text fields.
    pub form: Form,
}

/// A model listing request, ready to be sent with GET.
#[derive(Debug)]
pub struct ModelListRequest {
    /// What is fetched.
    pub url: String,
    /// The client that fetches it.
    pub client: reqwest::Client,
}

/// The media type that the audio is labelled with.
pub open spec fn audio_media_type() -> Option<Seq<char>> {
    parsed_media_type("audio/wav"@)
}

/// The parts of the form of a transcription request: the file `audio.wav`
/// in the field `file`, holding the container of the samples, and then the
/// text fields.
pub open spec fn request_form(
    samples: Seq<i16>,
    media_type: Seq<char>,
    fields: Seq<(Seq<char>, Seq<char>)>,
) -> Seq<(Seq<char>, PartModel)> {
    seq![("file"@, file_part(encoded_audio(samples), "audio.wav"@, media_type))] + text_parts(
        fields,
    )
}

/// Puts a transcription request together once the client is there: the
/// samples are encoded and the form is built around them. Audio beyond
/// `MAX_SAMPLES` is refused; a form is refused only where `audio/wav` is
/// not read as a media type.
pub fn assemble_transcription(
    url: String,
    client: reqwest::Client,
    samples: &[i16],
    fields: Vec<FormField>,
) -> (r: Result<TranscriptionRequest, SttError>)
    ensures
        samples@.len() > MAX_SAMPLES ==> (r matches Err(e) && e@ == (Failure::Encoding {
            detail: too_long_detail(),
        })),
        samples@.len() <= MAX_SAMPLES && audio_media_type() is None ==> (r matches Err(e) && e@
            is Multipart),
        samples@.len() <= MAX_SAMPLES && audio_media_type() is Some ==> (r matches Ok(q) && q.url
            == url && q.client == client && form_parts(q.form) == request_form(
            samples@,
            audio_media_type()->0,
            fields_view(fields@),
        )),
{
    let bytes = match encode_wav_bytes(samples) {
        Ok(bytes) => bytes,
        Err(error) => {
            return Err(error);
        },
    };
    match multipart_form(audio_part(bytes), fields) {
        Ok(form) => Ok(TranscriptionRequest { url, client, form }),
        Err(error) => Err(error),
    }
}

/// Makes a transcription request ready: the target from the provider's base
/// URL, the client with its headers, and the form with the encoded samples
/// and the text fields. The key is judged first, then the client is built,
/// then the audio is encoded, then the form is put together; the first of
/// these to fail is what is reported.
pub fn prepare_transcription(
    provider: &TranscriptionProvider,
    api_key: &str,
    model: &str,
    samples: &[i16],
    language: Option<String>,
    prompt: Option<String>,
    translate_to_english: bool,
) -> (r: Result<TranscriptionRequest, SttError>)
    ensures
        !is_usable_key(api_key@) ==> (r matches Err(e) && e@ == (Failure::HeaderConstruction {
            detail: invalid_value_detail(),
        })),
        is_usable_key(api_key@) ==> match r {
            Ok(request) => {
                &&& samples@.len() <= MAX_SAMPLES
                &&& audio_media_type() is Some
                &&& request.url@ == transcription_target(provider.base_url@, translate_to_english)
                &&& client_default_headers(request.client) == client_headers(
                    default_headers(api_key@),
                )
                &&& form_parts(request.form) == request_form(
                    samples@,
                    audio_media_type()->0,
                    transcription_fields(
                        model@,
                        hint_view(language),
                        hint_view(prompt),
                        translate_to_english,
                    ),
                )
            },
            Err(error) => {
                ||| error@ is ClientBuild
                ||| samples@.len() > MAX_SAMPLES && error@ == (Failure::Encoding {
                    detail: too_long_detail(),
                })
                ||| samples@.len() <= MAX_SAMPLES && audio_media_type() is None && error@
                    is Multipart
            },
        },
{
    let url = transcription_url(provider.base_url.as_str(), translate_to_english);
    let client = match create_client(provider, api_key) {
        Ok(client) => client,
        Err(error) => {
            return Err(error);
        },
    };
    let fields = form_fields(model, language, prompt, translate_to_english);
    assemble_transcription(url, client, samples, fields)
}

/// Whether some part of a form is in a field of the given name.
pub open spec fn has_part(parts: Seq<(Seq<char>, PartModel)>, name: Seq<char>) -> bool {
    exists|i: int| 0 <= i < parts.len() && (#[trigger] parts[i]).0 == name
}

/// The form of a translation request has no `language` part, whatever hint
/// the caller supplied.
pub proof fn lemma_translation_form_has_no_language(
    samples: Seq<i16>,
    media_type: Seq<char>,
    model: Seq<char>,
    language: Option<Seq<char>>,
    prompt: Option<Seq<char>>,
)
    ensures
        !has_part(
            request_form(samples, media_type, transcription_fields(model, language, prompt, true)),
            "language"@,
        ),
{
    let fields = transcription_fields(model, language, prompt, true);
    let parts = request_form(samples, media_type, fields);
    lemma_translation_sends_no_language(model, language, prompt);
    reveal_strlit("file");
    reveal_strlit("language");
    assert("file"@ != "language"@) by {
        assert("file"@.len() != "language"@.len());
    }
    assert forall|i: int| 0 <= i < parts.len() implies (#[trigger] parts[i]).0 != "language"@ by {
        if i > 0 {
            assert(parts[i].0 == fields[i - 1].0);
        }
    }
}

/// Makes a model listing request ready: the target and the client.
pub fn prepare_model_list(provider: &TranscriptionProvider, api_key: &str) -> (r: Result<
    ModelListRequest,
    SttError,
>)
    ensures
        !is_usable_key(api_key@) ==> (r matches Err(e) && e@ == (Failure::HeaderConstruction {
            detail: invalid_value_detail(),
        })),
        is_usable_key(api_key@) ==> match r {
            Ok(request) => request.url@ == models_target(provider.base_url@)
                && client_default_headers(request.client) == client_headers(
                default_headers(api_key@),
            ),
            Err(error) => error@ is ClientBuild,
        },
{
    let url = models_url(provider.base_url.as_str());
    match create_client(provider, api_key) {
        Ok(client) => Ok(ModelListRequest { url, client }),
        Err(error) => Err(error),
    }
}

} // verus!
