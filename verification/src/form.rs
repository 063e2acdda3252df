//! The multipart form of a transcription request, as plain values.

use vstd::prelude::*;
use vstd::string::*;

verus! {

/// A text field of a multipart form.
#[derive(Debug, Clone)]
pub struct FormField {
    pub name: String,
    pub value: String,
}

impl View for FormField {
    type V = (Seq<char>, Seq<char>);

    open spec fn view(&self) -> (Seq<char>, Seq<char>) {
        (self.name@, self.value@)
    }
}

/// The names and values of a list of fields, in order.
pub open spec fn fields_view(fields: Seq<FormField>) -> Seq<(Seq<char>, Seq<char>)> {
    Seq::new(fields.len(), |i: int| fields[i]@)
}

/// Whether `c` has the Unicode property White_Space.
pub open spec fn is_white_space(c: char) -> bool {
    let u = c as u32;
    ||| 0x09 <= u <= 0x0D
    ||| u == 0x20
    ||| u == 0x85
    ||| u == 0xA0
    ||| u == 0x1680
    ||| 0x2000 <= u <= 0x200A
    ||| u == 0x2028
    ||| u == 0x2029
    ||| u == 0x202F
    ||| u == 0x205F
    ||| u == 0x3000
}

/// Whether nothing but white space is in `s`: trimming it leaves nothing.
pub open spec fn is_blank(s: Seq<char>) -> bool {
    forall|i: int| 0 <= i < s.len() ==> is_white_space(#[trigger] s[i])
}

/// Whether a hint is given and has more than white space in it.
pub open spec fn is_usable_hint(hint: Option<Seq<char>>) -> bool {
    hint matches Some(h) && !is_blank(h)
}

/// The `language` field, if the request carries one: a usable hint, and only
/// when the audio is transcribed in its own language.
pub open spec fn language_fields(language: Option<Seq<char>>, translate_to_english: bool) -> Seq<
    (Seq<char>, Seq<char>),
> {
    if is_usable_hint(language) && !translate_to_english {
        seq![("language"@, language->0)]
    } else {
        seq![]
    }
}

/// The `prompt` field, if the request carries one.
pub open spec fn prompt_fields(prompt: Option<Seq<char>>) -> Seq<(Seq<char>, Seq<char>)> {
    if is_usable_hint(prompt) {
        seq![("prompt"@, prompt->0)]
    } else {
        seq![]
    }
}

/// The text fields of a transcription request, in the order they are sent.
pub open spec fn transcription_fields(
    model: Seq<char>,
    language: Option<Seq<char>>,
    prompt: Option<Seq<char>>,
    translate_to_english: bool,
) -> Seq<(Seq<char>, Seq<char>)> {
    seq![("model"@, model)] + language_fields(language, translate_to_english) + prompt_fields(
        prompt,
    ) + seq![("response_format"@, "json"@)]
}

/// The view of an optional string.
pub open spec fn hint_view(hint: Option<String>) -> Option<Seq<char>> {
    match hint {
        Some(h) => Some(h@),
        None => None,
    }
}

/// Tests a character for the White_Space property.
pub fn char_is_white_space(c: char) -> (r: bool)
    ensures
        r == is_white_space(c),
{
    let u = c as u32;
    (0x09 <= u && u <= 0x0D) || u == 0x20 || u == 0x85 || u == 0xA0 || u == 0x1680 || (0x2000 <= u
        && u <= 0x200A) || u == 0x2028 || u == 0x2029 || u == 0x202F || u == 0x205F || u == 0x3000
}

/// Tests whether a string holds nothing but white space.
pub fn str_is_blank(s: &str) -> (r: bool)
    ensures
        r == is_blank(s@),
{
    let n = s.unicode_len();
    let mut i: usize = 0;
    while i < n
        invariant
            n == s@.len(),
            i <= n,
            forall|j: int| 0 <= j < i ==> is_white_space(#[trigger] s@[j]),
        decreases n - i,
    {
        if !char_is_white_space(s.get_char(i)) {
            return false;
        }
        i += 1;
    }
    true
}

/// Lists the text fields of a transcription request.
pub fn form_fields(
    model: &str,
    language: Option<String>,
    prompt: Option<String>,
    translate_to_english: bool,
) -> (r: Vec<FormField>)
    ensures
        fields_view(r@) == transcription_fields(
            model@,
            hint_view(language),
            hint_view(prompt),
            translate_to_english,
        ),
{
    let mut fields: Vec<FormField> = Vec::new();
    fields.push(FormField { name: String::from_str("model"), value: String::from_str(model) });
    if let Some(language) = language {
        if !str_is_blank(language.as_str()) && !translate_to_english {
            fields.push(FormField { name: String::from_str("language"), value: language });
        }
    }
    if let Some(prompt) = prompt {
        if !str_is_blank(prompt.as_str()) {
            fields.push(FormField { name: String::from_str("prompt"), value: prompt });
        }
    }
    fields.push(
        FormField { name: String::from_str("response_format"), value: String::from_str("json") },
    );
    assert(fields_view(fields@) =~= transcription_fields(
        model@,
        hint_view(language),
        hint_view(prompt),
        translate_to_english,
    ));
    fields
}

/// Whether some field of the list has the given name.
pub open spec fn has_field(fields: Seq<(Seq<char>, Seq<char>)>, name: Seq<char>) -> bool {
    exists|i: int| 0 <= i < fields.len() && (#[trigger] fields[i]).0 == name
}

/// The translation endpoint never receives a language hint, whatever the
/// caller supplied.
pub proof fn lemma_translation_sends_no_language(
    model: Seq<char>,
    language: Option<Seq<char>>,
    prompt: Option<Seq<char>>,
)
    ensures
        !has_field(transcription_fields(model, language, prompt, true), "language"@),
{
    reveal_strlit("model");
    reveal_strlit("language");
    reveal_strlit("prompt");
    reveal_strlit("response_format");
    let fields = transcription_fields(model, language, prompt, true);
    assert("model"@ != "language"@) by {
        assert("model"@.len() != "language"@.len());
    }
    assert("prompt"@ != "language"@) by {
        assert("prompt"@.len() != "language"@.len());
    }
    assert("response_format"@ != "language"@) by {
        assert("response_format"@.len() != "language"@.len());
    }
    assert forall|i: int| 0 <= i < fields.len() implies (#[trigger] fields[i]).0 != "language"@ by {
    }
}

} // verus!
