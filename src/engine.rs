use vstd::prelude::*;

use crate::audio_query::AudioQuery;
use crate::error::VVSpeechError;
use crate::pipeline::Request;

verus! {

/// The lower-case form of a string, as `str::to_lowercase` gives it.
pub uninterp spec fn lower_of(s: Seq<char>) -> Seq<char>;

/// Relies on `str::to_lowercase`: the result is the lower-case form of the
/// characters of `s`, and depends on them alone.
#[verifier::external_body]
fn lowercase(s: &str) -> (r: String)
    ensures
        r@ == lower_of(s@),
{
    s.to_lowercase()
}

/// The URL that the command-line value `s`, whose lower-case form is
/// `lowered`, stands for: a known engine name means that engine's local
/// port; anything else is taken as the URL itself.
pub open spec fn shorthand_url(s: Seq<char>, lowered: Seq<char>) -> Seq<char> {
    if lowered == "voicevox"@ {
        "http://127.0.0.1:50021"@
    } else if lowered == "coeiroink"@ {
        "http://127.0.0.1:50031"@
    } else if lowered == "sharevox"@ {
        "http://127.0.0.1:50025"@
    } else if lowered == "lmroid"@ {
        "http://127.0.0.1:50073"@
    } else if lowered == "itvoice"@ {
        "http://127.0.0.1:49540"@
    } else {
        s
    }
}

/// The engine URL that a command-line value stands for: no value means the
/// default local engine; a known engine name, in any case, means that
/// engine's local port; anything else is taken as the URL itself.
pub open spec fn engine_url_of(arg: Option<Seq<char>>) -> Seq<char> {
    match arg {
        None => "http://127.0.0.1:50021"@,
        Some(s) => shorthand_url(s, lower_of(s)),
    }
}

/// Expands an engine-name shorthand, given the value and its lower-case form.
pub fn expand_shorthand(url: String, lowered: &String) -> (r: String)
    ensures
        r@ == shorthand_url(url@, lowered@),
{
    if *lowered == "voicevox".to_owned() {
        "http://127.0.0.1:50021".to_owned()
    } else if *lowered == "coeiroink".to_owned() {
        "http://127.0.0.1:50031".to_owned()
    } else if *lowered == "sharevox".to_owned() {
        "http://127.0.0.1:50025".to_owned()
    } else if *lowered == "lmroid".to_owned() {
        "http://127.0.0.1:50073".to_owned()
    } else if *lowered == "itvoice".to_owned() {
        "http://127.0.0.1:49540".to_owned()
    } else {
        url
    }
}

/// Resolves the engine URL option, expanding the engine-name shorthands.
pub fn engine_url(arg: Option<String>) -> (r: String)
    ensures
        r@ == engine_url_of(crate::metas::name_view(arg)),
{
    match arg {
        None => "http://127.0.0.1:50021".to_owned(),
        Some(url) => {
            let lowered = lowercase(url.as_str());
            expand_shorthand(url, &lowered)
        },
    }
}

/// The request whose answer gives the phonetic notation of `text`: the
/// default query of `text` for the default style `0`.
pub fn kana_request<P, F>(text: String) -> (r: Request<P, F>)
    ensures
        r == (Request::<P, F>::DefaultQuery { speaker: 0, text }),
{
    Request::DefaultQuery { speaker: 0, text }
}

/// The phonetic notation carried by the engine's default query, or
/// `GetAudioQueryFailed` when the engine gave none.
pub fn kana_of<P, F>(reply: Option<AudioQuery<P, F>>) -> (r: Result<String, VVSpeechError>)
    ensures
        match reply {
            Some(q) => r == Ok::<String, VVSpeechError>(q.kana),
            None => r == Err::<String, VVSpeechError>(VVSpeechError::GetAudioQueryFailed),
        },
{
    match reply {
        Some(q) => Ok(q.kana),
        None => Err(VVSpeechError::GetAudioQueryFailed),
    }
}

} // verus!
