use vstd::prelude::*;

use crate::format::{clipboard_spec, format_results, source_shown, PresentedResult, TranslatedItem};
use crate::lang::{source_from_wire, SourceLanguageCode};
use crate::query::{parse_query, parse_spec, ParseFailure, TranslationRequest};

verus! {

/// How the host has configured the translator.
#[derive(Debug)]
pub struct Settings {
    /// The key for the translation service; empty when none was given.
    pub api_key: String,
    /// Whether to call the free tier's endpoint rather than the paid one.
    pub use_free_tier: bool,
    /// Whether the copied text starts with a line holding the query's body.
    pub include_query: bool,
    /// Whether each line of the copied text starts with its language code.
    pub include_codes: bool,
}

impl Default for Settings {
    /// No key, the free tier, and only the translation in the copied text.
    fn default() -> (r: Settings)
        ensures
            r.api_key@.len() == 0,
            r.use_free_tier,
            !r.include_query,
            !r.include_codes,
    {
        Settings {
            api_key: String::new(),
            use_free_tier: true,
            include_query: false,
            include_codes: false,
        }
    }
}

/// Why a search ends without results.
#[derive(Debug, Clone, Copy, PartialEq, Eq, Structural)]
pub enum SearchFailure {
    /// No key for the translation service was configured.
    MissingApiKey,
    /// The query is malformed.
    Parse(ParseFailure),
    /// The request could not be sent, or no reply came.
    Transport,
    /// The reply does not have the expected shape.
    Decode,
}

/// How loudly a failure is reported.
#[derive(Debug, Clone, Copy, PartialEq, Eq, Structural)]
pub enum LogLevel {
    Error,
    Warn,
    Trace,
}

/// The level at which a failure is logged: configuration and service failures are
/// errors, malformed queries are warnings, and a query with nothing to translate yet
/// is a trace.
pub open spec fn log_level_spec(f: SearchFailure) -> LogLevel {
    match f {
        SearchFailure::MissingApiKey | SearchFailure::Transport | SearchFailure::Decode => {
            LogLevel::Error
        },
        SearchFailure::Parse(ParseFailure::NoQueryBody)
        | SearchFailure::Parse(ParseFailure::EmptyBody) => LogLevel::Trace,
        SearchFailure::Parse(_) => LogLevel::Warn,
    }
}

impl SearchFailure {
    /// The level at which this failure is logged.
    pub fn log_level(&self) -> (r: LogLevel)
        ensures
            r == log_level_spec(*self),
    {
        match self {
            SearchFailure::MissingApiKey | SearchFailure::Transport | SearchFailure::Decode => {
                LogLevel::Error
            },
            SearchFailure::Parse(ParseFailure::NoQueryBody)
            | SearchFailure::Parse(ParseFailure::EmptyBody) => LogLevel::Trace,
            SearchFailure::Parse(_) => LogLevel::Warn,
        }
    }
}

/// The address of the translation endpoint of each tier.
pub open spec fn endpoint_spec(use_free_tier: bool) -> Seq<char> {
    if use_free_tier {
        "https://api-free.deepl.com/v2/translate"@
    } else {
        "https://api.deepl.com/v2/translate"@
    }
}

/// The address to send a translation request to.
pub fn endpoint(use_free_tier: bool) -> (r: &'static str)
    ensures
        r@ == endpoint_spec(use_free_tier),
{
    if use_free_tier {
        "https://api-free.deepl.com/v2/translate"
    } else {
        "https://api.deepl.com/v2/translate"
    }
}

/// The value of the `Authorization` header for a key.
pub fn authorization(api_key: &str) -> (r: String)
    ensures
        r@ == "DeepL-Auth-Key "@ + api_key@,
{
    let mut r = String::from_str("DeepL-Auth-Key ");
    r.append(api_key);
    r
}

/// A request ready to be sent: where to, with which authorization, and what.
#[derive(Debug)]
pub struct OutboundCall {
    pub url: String,
    pub authorization: String,
    pub request: TranslationRequest,
}

/// Whether no usable key was given.
pub open spec fn key_missing(api_key: Option<&str>) -> bool {
    match api_key {
        None => true,
        Some(k) => k@.len() == 0,
    }
}

/// Decides, before any network traffic, whether a query leads to a call, and builds it.
///
/// A missing or empty key ends the search first; otherwise the query is parsed, and a
/// malformed one ends it.
pub fn prepare_call(
    api_key: Option<&str>,
    query: &str,
    use_free_tier: bool,
) -> (r: Result<OutboundCall, SearchFailure>)
    ensures
        key_missing(api_key) ==> r == Err::<OutboundCall, SearchFailure>(
            SearchFailure::MissingApiKey,
        ),
        !key_missing(api_key) ==> match parse_spec(query@) {
            Ok(p) => r matches Ok(call) && call.request.models(p) && call.request.wf()
                && call.url@ == endpoint_spec(use_free_tier)
                && call.authorization@ == "DeepL-Auth-Key "@ + api_key->0@,
            Err(e) => r == Err::<OutboundCall, SearchFailure>(SearchFailure::Parse(e)),
        },
{
    let key = match api_key {
        None => return Err(SearchFailure::MissingApiKey),
        Some(k) => k,
    };
    if key.unicode_len() == 0 {
        return Err(SearchFailure::MissingApiKey);
    }
    match parse_query(query) {
        Err(e) => Err(SearchFailure::Parse(e)),
        Ok(request) => Ok(
            OutboundCall {
                url: String::from_str(endpoint(use_free_tier)),
                authorization: authorization(key),
                request,
            },
        ),
    }
}

/// One translation as the service's reply holds it: the code of the detected
/// language, and the translated text.
#[derive(Debug)]
pub struct ReplyItem {
    pub detected_source_language: String,
    pub text: String,
}

/// Reads the translations of a reply; a detected language that is not a known
/// source code makes the whole reply undecodable.
pub fn decode_reply(items: &Vec<ReplyItem>) -> (r: Result<Vec<TranslatedItem>, SearchFailure>)
    ensures
        r is Ok <==> forall|i: int|
            0 <= i < items@.len() ==> source_from_wire(
                #[trigger] items@[i].detected_source_language@,
            ) is Some,
        r is Err ==> r == Err::<Vec<TranslatedItem>, SearchFailure>(SearchFailure::Decode),
        r matches Ok(v) ==> v@.len() == items@.len() && forall|i: int|
            #![trigger v@[i]]
            0 <= i < v@.len() ==> Some(v@[i].detected_source) == source_from_wire(
                items@[i].detected_source_language@,
            ) && v@[i].text@ == items@[i].text@,
{
    let mut out: Vec<TranslatedItem> = Vec::new();
    let mut i: usize = 0;
    while i < items.len()
        invariant
            i <= items@.len(),
            out@.len() == i,
            forall|j: int|
                0 <= j < i ==> source_from_wire(
                    #[trigger] items@[j].detected_source_language@,
                ) is Some,
            forall|j: int|
                #![trigger out@[j]]
                0 <= j < i ==> Some(out@[j].detected_source) == source_from_wire(
                    items@[j].detected_source_language@,
                ) && out@[j].text@ == items@[j].text@,
        decreases items@.len() - i,
    {
        let item = &items[i];
        match SourceLanguageCode::from_wire_code(item.detected_source_language.as_str()) {
            None => {
                return Err(SearchFailure::Decode);
            },
            Some(c) => {
                out.push(TranslatedItem { detected_source: c, text: item.text.clone() });
            },
        }
        i += 1;
    }
    Ok(out)
}

/// Turns the service's reply to a request into results, or into `Decode` when the
/// reply names an unknown language. Each result shows a translation, and copies the
/// text that `clipboard_spec` gives for it under the settings.
pub fn finish_search(
    request: &TranslationRequest,
    reply: &Vec<ReplyItem>,
    settings: &Settings,
) -> (r: Result<Vec<PresentedResult>, SearchFailure>)
    requires
        request.wf(),
    ensures
        r is Ok <==> forall|i: int|
            0 <= i < reply@.len() ==> source_from_wire(
                #[trigger] reply@[i].detected_source_language@,
            ) is Some,
        r is Err ==> r == Err::<Vec<PresentedResult>, SearchFailure>(SearchFailure::Decode),
        r matches Ok(v) ==> v@.len() == reply@.len() && forall|i: int|
            #![trigger v@[i]]
            0 <= i < v@.len() ==> {
                &&& v@[i].display_text@ == reply@[i].text@
                &&& v@[i].clipboard_text@ == clipboard_spec(
                    request.text@[0]@,
                    source_shown(
                        request.source,
                        source_from_wire(reply@[i].detected_source_language@)->0,
                    ),
                    request.target,
                    reply@[i].text@,
                    settings.include_query,
                    settings.include_codes,
                )
            },
{
    let items = match decode_reply(reply) {
        Err(e) => return Err(e),
        Ok(items) => items,
    };
    let out = format_results(request, &items, settings.include_query, settings.include_codes);
    assert forall|i: int| 0 <= i < out@.len() implies {
        &&& #[trigger] out@[i].display_text@ == reply@[i].text@
        &&& out@[i].clipboard_text@ == clipboard_spec(
            request.text@[0]@,
            source_shown(request.source, source_from_wire(reply@[i].detected_source_language@)->0),
            request.target,
            reply@[i].text@,
            settings.include_query,
            settings.include_codes,
        )
    } by {
        assert(items@[i].text@ == reply@[i].text@);
        assert(out@[i].display_text@ == items@[i].text@);
    }
    Ok(out)
}

} // verus!
