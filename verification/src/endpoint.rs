//! Request targets: the provider's base URL joined with an endpoint path.

use vstd::prelude::*;
use vstd::string::*;

verus! {

/// `s` without the slashes at its end, however many there are.
pub open spec fn trim_trailing_slashes(s: Seq<char>) -> Seq<char>
    decreases s.len(),
{
    if s.len() > 0 && s.last() == '/' {
        trim_trailing_slashes(s.drop_last())
    } else {
        s
    }
}

/// The path below the base URL that takes audio: the translation endpoint
/// when English output is asked for, the transcription endpoint otherwise.
pub open spec fn audio_path(translate_to_english: bool) -> Seq<char> {
    if translate_to_english {
        "audio/translations"@
    } else {
        "audio/transcriptions"@
    }
}

/// The target of a transcription or translation request.
pub open spec fn transcription_target(base_url: Seq<char>, translate_to_english: bool) -> Seq<
    char,
> {
    trim_trailing_slashes(base_url) + "/"@ + audio_path(translate_to_english)
}

/// The target of a model listing request.
pub open spec fn models_target(base_url: Seq<char>) -> Seq<char> {
    trim_trailing_slashes(base_url) + "/models"@
}

/// Strips every trailing slash from a base URL.
pub fn normalize_base_url(base_url: &str) -> (r: &str)
    ensures
        r@ == trim_trailing_slashes(base_url@),
{
    let mut end = base_url.unicode_len();
    proof {
        assert(base_url@.subrange(0, end as int) =~= base_url@);
    }
    while end > 0 && base_url.get_char(end - 1) == '/'
        invariant
            end <= base_url@.len(),
            trim_trailing_slashes(base_url@.subrange(0, end as int)) == trim_trailing_slashes(
                base_url@,
            ),
        decreases end,
    {
        proof {
            let cur = base_url@.subrange(0, end as int);
            assert(cur.last() == '/');
            assert(cur.drop_last() =~= base_url@.subrange(0, end - 1));
        }
        end -= 1;
    }
    base_url.substring_char(0, end)
}

/// Builds the URL that audio is posted to.
pub fn transcription_url(base_url: &str, translate_to_english: bool) -> (r: String)
    ensures
        r@ == transcription_target(base_url@, translate_to_english),
{
    let mut url = String::from_str(normalize_base_url(base_url));
    url.append("/");
    if translate_to_english {
        url.append("audio/translations");
    } else {
        url.append("audio/transcriptions");
    }
    url
}

/// Builds the URL that lists the provider's models.
pub fn models_url(base_url: &str) -> (r: String)
    ensures
        r@ == models_target(base_url@),
{
    let mut url = String::from_str(normalize_base_url(base_url));
    url.append("/models");
    url
}

/// What is left after trimming is a prefix of the input that does not end in
/// a slash, and everything cut off is slashes.
pub proof fn lemma_trim_is_longest_slashless_prefix(s: Seq<char>)
    ensures
        trim_trailing_slashes(s).len() <= s.len(),
        trim_trailing_slashes(s) == s.subrange(0, trim_trailing_slashes(s).len() as int),
        trim_trailing_slashes(s).len() > 0 ==> trim_trailing_slashes(s).last() != '/',
        forall|i: int| trim_trailing_slashes(s).len() <= i < s.len() ==> s[i] == '/',
    decreases s.len(),
{
    if s.len() > 0 && s.last() == '/' {
        let t = s.drop_last();
        lemma_trim_is_longest_slashless_prefix(t);
        let n = trim_trailing_slashes(t).len() as int;
        assert(t.subrange(0, n) =~= s.subrange(0, n));
        assert forall|i: int| n <= i < s.len() implies s[i] == '/' by {
            if i < t.len() {
                assert(t[i] == s[i]);
            }
        }
    } else {
        assert(s.subrange(0, s.len() as int) =~= s);
    }
}

/// One more slash at the end of the base URL changes no request target.
pub proof fn lemma_trailing_slash_is_ignored(base_url: Seq<char>, translate_to_english: bool)
    ensures
        trim_trailing_slashes(base_url.push('/')) == trim_trailing_slashes(base_url),
        transcription_target(base_url.push('/'), translate_to_english) == transcription_target(
            base_url,
            translate_to_english,
        ),
        models_target(base_url.push('/')) == models_target(base_url),
{
    let s = base_url.push('/');
    assert(s.last() == '/');
    assert(s.drop_last() =~= base_url);
}

} // verus!
