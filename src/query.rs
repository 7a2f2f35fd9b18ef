use vstd::prelude::*;

use crate::lang::{source_code_of, target_code_of, SourceLanguageCode, TargetLanguageCode};
use crate::text::{lower_of, to_lower, trim, trimmed};

verus! {

/// Why a query could not be turned into a request.
#[derive(Debug, Clone, Copy, PartialEq, Eq, Structural)]
pub enum ParseFailure {
    /// The query has no colon, or nothing but white space before its first colon.
    NoQueryBody,
    /// Nothing but white space follows the first colon.
    EmptyBody,
    /// The language part holds more than one arrow.
    TooManyArrows,
    /// The token before the arrow names no source language.
    InvalidSourceCode,
    /// The token that names the target names no target language.
    InvalidTargetCode,
}

/// A request for the translation service: the texts, the language to translate them
/// into, and the language they are written in, or none to let the service detect it.
#[derive(Debug)]
pub struct TranslationRequest {
    pub text: Vec<String>,
    pub target: TargetLanguageCode,
    pub source: Option<SourceLanguageCode>,
}

/// What a parsed query asks for: the body, the target, and the source if one was given.
pub type ParsedQuery = (Seq<char>, TargetLanguageCode, Option<SourceLanguageCode>);

impl TranslationRequest {
    /// The texts of the request, as character sequences.
    pub open spec fn texts(&self) -> Seq<Seq<char>> {
        self.text@.map_values(|s: String| s@)
    }

    /// A request holds at least one text, and no empty one.
    pub open spec fn wf(&self) -> bool {
        &&& self.text@.len() >= 1
        &&& forall|i: int| 0 <= i < self.text@.len() ==> self.text@[i]@.len() > 0
    }

    /// The request asks for exactly what `p` describes, with a single text.
    pub open spec fn models(&self, p: ParsedQuery) -> bool {
        &&& self.texts() == seq![p.0]
        &&& self.target == p.1
        &&& self.source == p.2
    }
}

/// The index of the first colon in `s` at or after `i`.
pub open spec fn colon_from(s: Seq<char>, i: int) -> Option<int>
    decreases s.len() - i,
{
    if i < 0 || i >= s.len() {
        None
    } else if s[i] == ':' {
        Some(i)
    } else {
        colon_from(s, i + 1)
    }
}

/// The index of the first arrow `->` in `s` that starts at or after `i`.
pub open spec fn arrow_from(s: Seq<char>, i: int) -> Option<int>
    decreases s.len() - i,
{
    if i < 0 || i + 1 >= s.len() {
        None
    } else if s[i] == '-' && s[i + 1] == '>' {
        Some(i)
    } else {
        arrow_from(s, i + 1)
    }
}

/// The token for a language as the parser looks it up: trimmed and lowercased.
pub open spec fn token_of(s: Seq<char>) -> Seq<char> {
    lower_of(trimmed(s))
}

/// What a query `<target>: <body>` or `<source> -> <target>: <body>` asks for.
///
/// The query splits at its first colon; the part before it, trimmed, names the
/// languages, and the rest, trimmed, is the body. The language part splits at the
/// arrows: one part names the target, two parts name the source and the target.
pub open spec fn parse_spec(raw: Seq<char>) -> Result<ParsedQuery, ParseFailure> {
    match colon_from(raw, 0) {
        None => Err(ParseFailure::NoQueryBody),
        Some(c) => {
            let codes = trimmed(raw.subrange(0, c));
            let body = trimmed(raw.subrange(c + 1, raw.len() as int));
            if codes.len() == 0 {
                Err(ParseFailure::NoQueryBody)
            } else if body.len() == 0 {
                Err(ParseFailure::EmptyBody)
            } else {
                match arrow_from(codes, 0) {
                    None => match target_code_of(token_of(codes)) {
                        None => Err(ParseFailure::InvalidTargetCode),
                        Some(t) => Ok((body, t, None)),
                    },
                    Some(a) => {
                        if arrow_from(codes, a + 2) is Some {
                            Err(ParseFailure::TooManyArrows)
                        } else {
                            match source_code_of(token_of(codes.subrange(0, a))) {
                                None => Err(ParseFailure::InvalidSourceCode),
                                Some(s) => match target_code_of(
                                    token_of(codes.subrange(a + 2, codes.len() as int)),
                                ) {
                                    None => Err(ParseFailure::InvalidTargetCode),
                                    Some(t) => Ok((body, t, Some(s))),
                                },
                            }
                        }
                    },
                }
            }
        },
    }
}

/// The index of the first colon of `s`.
fn find_colon(s: &str) -> (r: Option<usize>)
    ensures
        r matches Some(k) ==> colon_from(s@, 0) == Some(k as int) && k < s@.len(),
        r is None ==> colon_from(s@, 0) is None,
{
    let n = s.unicode_len();
    let mut i: usize = 0;
    while i < n
        invariant
            n == s@.len(),
            i <= n,
            colon_from(s@, 0) == colon_from(s@, i as int),
        decreases n - i,
    {
        if s.get_char(i) == ':' {
            return Some(i);
        }
        i += 1;
    }
    None
}

/// The index of the first arrow of `s` that starts at or after `from`.
fn find_arrow(s: &str, from: usize) -> (r: Option<usize>)
    requires
        from <= s@.len(),
    ensures
        r matches Some(k) ==> arrow_from(s@, from as int) == Some(k as int) && k + 2 <= s@.len(),
        r is None ==> arrow_from(s@, from as int) is None,
{
    let n = s.unicode_len();
    let mut i: usize = from;
    while n - i > 1
        invariant
            n == s@.len(),
            from <= i <= n,
            arrow_from(s@, from as int) == arrow_from(s@, i as int),
        decreases n - i,
    {
        if s.get_char(i) == '-' && s.get_char(i + 1) == '>' {
            return Some(i);
        }
        i += 1;
    }
    None
}

/// Builds a request for `body` alone.
fn single_text_request(
    body: &str,
    target: TargetLanguageCode,
    source: Option<SourceLanguageCode>,
) -> (r: TranslationRequest)
    requires
        body@.len() > 0,
    ensures
        r.models((body@, target, source)),
        r.wf(),
{
    let text = vec![String::from_str(body)];
    let r = TranslationRequest { text, target, source };
    assert(r.texts() =~= seq![body@]);
    assert(r.text@[0]@ == body@);
    r
}

/// Parses a query `<target>: <body>` or `<source> -> <target>: <body>`.
///
/// White space around each part is ignored, and language tokens are matched without
/// regard to case. The body is everything after the first colon, further colons
/// included.
pub fn parse_query(raw: &str) -> (r: Result<TranslationRequest, ParseFailure>)
    ensures
        match parse_spec(raw@) {
            Ok(p) => r matches Ok(q) && q.models(p) && q.wf(),
            Err(e) => r == Err::<TranslationRequest, ParseFailure>(e),
        },
{
    let n = raw.unicode_len();
    let c = match find_colon(raw) {
        None => return Err(ParseFailure::NoQueryBody),
        Some(c) => c,
    };
    let codes = trim(raw.substring_char(0, c));
    let body = trim(raw.substring_char(c + 1, n));
    if codes.unicode_len() == 0 {
        return Err(ParseFailure::NoQueryBody);
    }
    if body.unicode_len() == 0 {
        return Err(ParseFailure::EmptyBody);
    }
    let m = codes.unicode_len();
    match find_arrow(codes, 0) {
        None => {
            let target = to_lower(trim(codes));
            match TargetLanguageCode::guess_from_str(target.as_str()) {
                None => Err(ParseFailure::InvalidTargetCode),
                Some(t) => Ok(single_text_request(body, t, None)),
            }
        },
        Some(a) => {
            if find_arrow(codes, a + 2).is_some() {
                return Err(ParseFailure::TooManyArrows);
            }
            let source = to_lower(trim(codes.substring_char(0, a)));
            let target = to_lower(trim(codes.substring_char(a + 2, m)));
            let s = match SourceLanguageCode::guess_from_str(source.as_str()) {
                None => return Err(ParseFailure::InvalidSourceCode),
                Some(s) => s,
            };
            match TargetLanguageCode::guess_from_str(target.as_str()) {
                None => Err(ParseFailure::InvalidTargetCode),
                Some(t) => Ok(single_text_request(body, t, Some(s))),
            }
        },
    }
}

} // verus!
