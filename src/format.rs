use vstd::prelude::*;

use crate::lang::{source_wire, target_wire, SourceLanguageCode, TargetLanguageCode};
use crate::query::TranslationRequest;

verus! {

/// One translation in the service's reply, with the language it detected in the text.
#[derive(Debug)]
pub struct TranslatedItem {
    pub detected_source: SourceLanguageCode,
    pub text: String,
}

/// A result for the user: the text to show, and the text to copy when it is chosen.
#[derive(Debug)]
pub struct PresentedResult {
    pub display_text: String,
    pub clipboard_text: String,
}

/// The source language a result names: the one the query gave, else the detected one.
pub open spec fn source_shown(
    given: Option<SourceLanguageCode>,
    detected: SourceLanguageCode,
) -> SourceLanguageCode {
    match given {
        Some(s) => s,
        None => detected,
    }
}

/// The text copied for a translation.
///
/// With `include_query`, a first line holds the body of the query; then comes the
/// translation. With `include_codes`, each line starts with the code of its language
/// and `": "`.
pub open spec fn clipboard_spec(
    body: Seq<char>,
    source: SourceLanguageCode,
    target: TargetLanguageCode,
    translated: Seq<char>,
    include_query: bool,
    include_codes: bool,
) -> Seq<char> {
    let query_line = if !include_query {
        Seq::empty()
    } else if include_codes {
        source_wire(source) + ": "@ + body + "\n"@
    } else {
        body + "\n"@
    };
    let translation_line = if include_codes {
        target_wire(target) + ": "@ + translated
    } else {
        translated
    };
    query_line + translation_line
}

/// Builds the text copied for a translation of `body` from `source` into `target`.
pub fn clipboard_text(
    body: &str,
    source: SourceLanguageCode,
    target: TargetLanguageCode,
    translated: &str,
    include_query: bool,
    include_codes: bool,
) -> (r: String)
    ensures
        r@ == clipboard_spec(body@, source, target, translated@, include_query, include_codes),
{
    let mut out = String::new();
    if include_query {
        if include_codes {
            out.append(source.wire_code());
            out.append(": ");
        }
        out.append(body);
        out.append("\n");
    }
    if include_codes {
        out.append(target.wire_code());
        out.append(": ");
    }
    out.append(translated);
    proof {
        let q = if !include_query {
            Seq::<char>::empty()
        } else if include_codes {
            source_wire(source) + ": "@ + body@ + "\n"@
        } else {
            body@ + "\n"@
        };
        let t = if include_codes {
            target_wire(target) + ": "@ + translated@
        } else {
            translated@
        };
        assert(out@ =~= q + t);
    }
    out
}

/// Turns each translation of the reply, in order, into a result: it shows the
/// translation and copies the text that `clipboard_spec` gives for it.
pub fn format_results(
    request: &TranslationRequest,
    items: &Vec<TranslatedItem>,
    include_query: bool,
    include_codes: bool,
) -> (r: Vec<PresentedResult>)
    requires
        request.wf(),
    ensures
        r@.len() == items@.len(),
        forall|i: int|
            #![trigger r@[i]]
            0 <= i < r@.len() ==> {
                &&& r@[i].display_text@ == items@[i].text@
                &&& r@[i].clipboard_text@ == clipboard_spec(
                    request.text@[0]@,
                    source_shown(request.source, items@[i].detected_source),
                    request.target,
                    items@[i].text@,
                    include_query,
                    include_codes,
                )
            },
{
    let mut out: Vec<PresentedResult> = Vec::new();
    let body = request.text[0].as_str();
    let mut i: usize = 0;
    while i < items.len()
        invariant
            request.wf(),
            body@ == request.text@[0]@,
            i <= items@.len(),
            out@.len() == i,
            forall|j: int|
                #![trigger out@[j]]
                0 <= j < i ==> {
                    &&& out@[j].display_text@ == items@[j].text@
                    &&& out@[j].clipboard_text@ == clipboard_spec(
                        body@,
                        source_shown(request.source, items@[j].detected_source),
                        request.target,
                        items@[j].text@,
                        include_query,
                        include_codes,
                    )
                },
        decreases items@.len() - i,
    {
        let item = &items[i];
        let source = match request.source {
            Some(s) => s,
            None => item.detected_source,
        };
        let clip = clipboard_text(
            body,
            source,
            request.target,
            item.text.as_str(),
            include_query,
            include_codes,
        );
        out.push(PresentedResult { display_text: item.text.clone(), clipboard_text: clip });
        i += 1;
    }
    out
}

} // verus!
