//! What a provider's answer means: the recognized text, the list of models,
//! or the failure to report.

use vstd::prelude::*;
use vstd::string::*;
use crate::error::{Failure, RequestKind, SttError};
use crate::text::{lossy_text, text_of_bytes};
use crate::json::{
    elements, json_error_text, json_model, json_models, member, parse_json, parsed_json, text,
    value_as_array, value_as_str, value_get, JsonModel,
};

verus! {

/// Whether a status code reports success: the 2xx range.
pub open spec fn is_success(status: u16) -> bool {
    200 <= status < 300
}

/// The views of a list of strings, in order.
pub open spec fn strings_view(strings: Seq<String>) -> Seq<Seq<char>> {
    Seq::new(strings.len(), |i: int| strings[i]@)
}

/// The view of a response body: its bytes, or the reason it could not be
/// read.
pub open spec fn body_view(body: Result<Vec<u8>, String>) -> Result<Seq<u8>, Seq<char>> {
    match body {
        Ok(content) => Ok(content@),
        Err(reason) => Err(reason@),
    }
}

/// The view of an outcome that carries a text.
pub open spec fn text_outcome_view(outcome: Result<String, SttError>) -> Result<
    Seq<char>,
    Failure,
> {
    match outcome {
        Ok(content) => Ok(content@),
        Err(error) => Err(error@),
    }
}

/// The view of an outcome that carries a list of texts.
pub open spec fn list_outcome_view(outcome: Result<Vec<String>, SttError>) -> Result<
    Seq<Seq<char>>,
    Failure,
> {
    match outcome {
        Ok(items) => Ok(strings_view(items@)),
        Err(error) => Err(error@),
    }
}

/// The body of a failure status as text, or the placeholder where the body
/// could not be read.
pub open spec fn failure_body(body: Result<Seq<u8>, Seq<char>>, placeholder: Seq<char>) -> Seq<
    char,
> {
    match body {
        Ok(content) => lossy_text(content),
        Err(_) => placeholder,
    }
}

/// The recognized text in a transcription answer: the string under `text` of
/// an object. No other document holds one.
pub open spec fn transcript(document: JsonModel) -> Option<Seq<char>> {
    match member(document, "text"@) {
        Some(JsonModel::Text(t)) => Some(t),
        _ => None,
    }
}

/// The identifier of one entry of a model list: its string `id`, else its
/// string `name`, else none.
pub open spec fn entry_id(entry: JsonModel) -> Option<Seq<char>> {
    match member(entry, "id"@) {
        Some(JsonModel::Text(id)) => Some(id),
        _ => match member(entry, "name"@) {
            Some(JsonModel::Text(name)) => Some(name),
            _ => None,
        },
    }
}

/// The identifiers of the entries that have one, in order.
pub open spec fn entry_ids(entries: Seq<JsonModel>) -> Seq<Seq<char>>
    decreases entries.len(),
{
    if entries.len() == 0 {
        seq![]
    } else {
        match entry_id(entries.last()) {
            Some(id) => entry_ids(entries.drop_last()).push(id),
            None => entry_ids(entries.drop_last()),
        }
    }
}

/// The strings among the items, in order.
pub open spec fn string_items(items: Seq<JsonModel>) -> Seq<Seq<char>>
    decreases items.len(),
{
    if items.len() == 0 {
        seq![]
    } else {
        match items.last() {
            JsonModel::Text(t) => string_items(items.drop_last()).push(t),
            _ => string_items(items.drop_last()),
        }
    }
}

/// The shapes a model listing comes in.
pub enum ListingShape {
    /// An object whose `data` member is an array of entries.
    DataEntries(Seq<JsonModel>),
    /// An array whose strings are the identifiers.
    BareArray(Seq<JsonModel>),
    /// Anything else.
    Unrecognized,
}

/// The shape of a document, the `data` form tried first.
pub open spec fn listing_shape(document: JsonModel) -> ListingShape {
    match member(document, "data"@) {
        Some(JsonModel::List(entries)) => ListingShape::DataEntries(entries),
        _ => match document {
            JsonModel::List(items) => ListingShape::BareArray(items),
            _ => ListingShape::Unrecognized,
        },
    }
}

/// The model identifiers that a document lists.
pub open spec fn model_ids(document: JsonModel) -> Seq<Seq<char>> {
    match listing_shape(document) {
        ListingShape::DataEntries(entries) => entry_ids(entries),
        ListingShape::BareArray(items) => string_items(items),
        ListingShape::Unrecognized => seq![],
    }
}

/// What a transcription answer amounts to.
pub open spec fn transcription_outcome(status: u16, body: Result<Seq<u8>, Seq<char>>) -> Result<
    Seq<char>,
    Failure,
> {
    let request = RequestKind::Transcription;
    if !is_success(status) {
        Err(
            Failure::HttpStatus {
                request,
                status,
                body: failure_body(body, "Failed to read error response"@),
            },
        )
    } else {
        match body {
            Err(reason) => Err(Failure::ResponseParse { request, detail: reason }),
            Ok(content) => match parsed_json(content) {
                Err(diagnostic) => Err(Failure::ResponseParse { request, detail: diagnostic }),
                Ok(document) => match transcript(document) {
                    Some(t) => Ok(t),
                    None => Err(
                        Failure::ResponseParse { request, detail: "missing string field `text`"@ },
                    ),
                },
            },
        }
    }
}

/// What a model listing answer amounts to.
pub open spec fn model_list_outcome(status: u16, body: Result<Seq<u8>, Seq<char>>) -> Result<
    Seq<Seq<char>>,
    Failure,
> {
    let request = RequestKind::ModelList;
    if !is_success(status) {
        Err(Failure::HttpStatus { request, status, body: failure_body(body, "Unknown error"@) })
    } else {
        match body {
            Err(reason) => Err(Failure::ResponseParse { request, detail: reason }),
            Ok(content) => match parsed_json(content) {
                Err(diagnostic) => Err(Failure::ResponseParse { request, detail: diagnostic }),
                Ok(document) => Ok(model_ids(document)),
            },
        }
    }
}

/// Tests a status code for success.
pub fn status_is_success(status: u16) -> (r: bool)
    ensures
        r == is_success(status),
{
    200 <= status && status < 300
}

/// Reads the recognized text out of a parsed answer.
pub fn transcript_of(document: &serde_json::Value) -> (r: Option<String>)
    ensures
        match r {
            Some(t) => transcript(json_model(*document)) == Some(t@),
            None => transcript(json_model(*document)) is None,
        },
{
    match value_get(document, "text") {
        Some(found) => match value_as_str(found) {
            Some(t) => Some(String::from_str(t)),
            None => None,
        },
        None => None,
    }
}

/// Reads the identifier of one entry of a model list.
pub fn entry_id_of(entry: &serde_json::Value) -> (r: Option<String>)
    ensures
        match r {
            Some(id) => entry_id(json_model(*entry)) == Some(id@),
            None => entry_id(json_model(*entry)) is None,
        },
{
    if let Some(found) = value_get(entry, "id") {
        if let Some(id) = value_as_str(found) {
            return Some(String::from_str(id));
        }
    }
    if let Some(found) = value_get(entry, "name") {
        if let Some(name) = value_as_str(found) {
            return Some(String::from_str(name));
        }
    }
    None
}

/// Collects the identifiers of the entries under `data`.
fn collect_entry_ids(entries: &Vec<serde_json::Value>) -> (r: Vec<String>)
    ensures
        strings_view(r@) == entry_ids(json_models(entries@)),
{
    let ghost all = json_models(entries@);
    let mut ids: Vec<String> = Vec::new();
    let mut i: usize = 0;
    while i < entries.len()
        invariant
            i <= entries.len(),
            all == json_models(entries@),
            strings_view(ids@) == entry_ids(all.subrange(0, i as int)),
        decreases entries.len() - i,
    {
        proof {
            let next = all.subrange(0, i + 1);
            assert(next.drop_last() =~= all.subrange(0, i as int));
            assert(next.last() == json_model(entries@[i as int]));
        }
        let ghost before = ids@;
        match entry_id_of(&entries[i]) {
            Some(id) => {
                ids.push(id);
                assert(strings_view(ids@) =~= strings_view(before).push(id@));
            },
            None => {},
        }
        i += 1;
    }
    proof {
        assert(all.subrange(0, i as int) =~= all);
    }
    ids
}

/// Collects the strings of a bare array.
fn collect_string_items(items: &Vec<serde_json::Value>) -> (r: Vec<String>)
    ensures
        strings_view(r@) == string_items(json_models(items@)),
{
    let ghost all = json_models(items@);
    let mut ids: Vec<String> = Vec::new();
    let mut i: usize = 0;
    while i < items.len()
        invariant
            i <= items.len(),
            all == json_models(items@),
            strings_view(ids@) == string_items(all.subrange(0, i as int)),
        decreases items.len() - i,
    {
        proof {
            let next = all.subrange(0, i + 1);
            assert(next.drop_last() =~= all.subrange(0, i as int));
            assert(next.last() == json_model(items@[i as int]));
        }
        let ghost before = ids@;
        match value_as_str(&items[i]) {
            Some(id) => {
                ids.push(String::from_str(id));
                assert(strings_view(ids@) =~= strings_view(before).push(id@));
            },
            None => {},
        }
        i += 1;
    }
    proof {
        assert(all.subrange(0, i as int) =~= all);
    }
    ids
}

/// Lists the model identifiers of a parsed answer, in the answer's order and
/// with repetitions kept. A document of an unknown shape lists none.
pub fn model_ids_of(document: &serde_json::Value) -> (r: Vec<String>)
    ensures
        strings_view(r@) == model_ids(json_model(*document)),
{
    if let Some(data) = value_get(document, "data") {
        if let Some(entries) = value_as_array(data) {
            return collect_entry_ids(entries);
        }
    }
    if let Some(items) = value_as_array(document) {
        return collect_string_items(items);
    }
    let none: Vec<String> = Vec::new();
    assert(strings_view(none@) =~= seq![]);
    none
}

/// The body of a failure status as reported: the text that came, or the
/// placeholder.
fn body_or(body: Result<Vec<u8>, String>, placeholder: &str) -> (r: String)
    ensures
        r@ == failure_body(body_view(body), placeholder@),
{
    match body {
        Ok(content) => text_of_bytes(content.as_slice()),
        Err(_) => String::from_str(placeholder),
    }
}

/// Interprets the answer to a transcription request: the status code and the
/// bytes of the body, or the reason the body could not be read.
pub fn read_transcription(status: u16, body: Result<Vec<u8>, String>) -> (r: Result<
    String,
    SttError,
>)
    ensures
        text_outcome_view(r) == transcription_outcome(status, body_view(body)),
{
    let request = RequestKind::Transcription;
    if !status_is_success(status) {
        return Err(
            SttError::HttpStatus {
                request,
                status,
                body: body_or(body, "Failed to read error response"),
            },
        );
    }
    let content = match body {
        Ok(content) => content,
        Err(reason) => {
            return Err(SttError::ResponseParse { request, detail: reason });
        },
    };
    match parse_json(content.as_slice()) {
        Err(error) => Err(SttError::ResponseParse { request, detail: json_error_text(&error) }),
        Ok(document) => match transcript_of(&document) {
            Some(t) => Ok(t),
            None => Err(
                SttError::ResponseParse {
                    request,
                    detail: String::from_str("missing string field `text`"),
                },
            ),
        },
    }
}

/// Interprets the answer to a model listing request.
pub fn read_model_list(status: u16, body: Result<Vec<u8>, String>) -> (r: Result<
    Vec<String>,
    SttError,
>)
    ensures
        list_outcome_view(r) == model_list_outcome(status, body_view(body)),
{
    let request = RequestKind::ModelList;
    if !status_is_success(status) {
        return Err(SttError::HttpStatus { request, status, body: body_or(body, "Unknown error") });
    }
    let content = match body {
        Ok(content) => content,
        Err(reason) => {
            return Err(SttError::ResponseParse { request, detail: reason });
        },
    };
    match parse_json(content.as_slice()) {
        Err(error) => Err(SttError::ResponseParse { request, detail: json_error_text(&error) }),
        Ok(document) => Ok(model_ids_of(&document)),
    }
}

/// The strings as JSON documents.
pub open spec fn as_texts(names: Seq<Seq<char>>) -> Seq<JsonModel> {
    Seq::new(names.len(), |i: int| JsonModel::Text(names[i]))
}

/// A bare array of strings lists exactly those strings: same order, nothing
/// dropped, nothing merged.
pub proof fn lemma_bare_array_lists_its_strings(names: Seq<Seq<char>>)
    ensures
        model_ids(JsonModel::List(as_texts(names))) == names,
    decreases names.len(),
{
    let items = as_texts(names);
    if names.len() == 0 {
        assert(string_items(items) =~= names);
    } else {
        lemma_bare_array_lists_its_strings(names.drop_last());
        assert(items.drop_last() =~= as_texts(names.drop_last()));
        assert(string_items(items) =~= names);
    }
}

/// The identifiers of entries that follow one another are the identifiers
/// of the first run followed by those of the second: the order of the
/// answer is kept and no identifier is left out for having occurred before.
pub proof fn lemma_entry_ids_follow_the_answer(first: Seq<JsonModel>, second: Seq<JsonModel>)
    ensures
        entry_ids(first + second) == entry_ids(first) + entry_ids(second),
    decreases second.len(),
{
    if second.len() == 0 {
        assert(first + second =~= first);
        assert(entry_ids(first) + entry_ids(second) =~= entry_ids(first));
    } else {
        lemma_entry_ids_follow_the_answer(first, second.drop_last());
        assert((first + second).drop_last() =~= first + second.drop_last());
        assert((first + second).last() == second.last());
        assert(entry_ids(first + second) =~= entry_ids(first) + entry_ids(second));
    }
}

/// An answer with a success status and a body that is JSON is never a
/// failure of the model listing, whatever the document's shape.
pub proof fn lemma_any_json_listing_succeeds(status: u16, content: Seq<u8>)
    ensures
        is_success(status) && parsed_json(content) is Ok ==> model_list_outcome(
            status,
            Ok(content),
        ) is Ok,
{
}

} // verus!
