use deepl_translate::format::{clipboard_text, format_results, TranslatedItem};
use deepl_translate::lang::{SourceLanguageCode, TargetLanguageCode};
use deepl_translate::query::{parse_query, ParseFailure, TranslationRequest};
use deepl_translate::service::{
    authorization, decode_reply, endpoint, finish_search, prepare_call, LogLevel, ReplyItem,
    SearchFailure, Settings,
};

fn reply(code: &str, text: &str) -> ReplyItem {
    ReplyItem { detected_source_language: code.to_string(), text: text.to_string() }
}

fn settings(include_query: bool, include_codes: bool) -> Settings {
    Settings { api_key: "key".to_string(), use_free_tier: true, include_query, include_codes }
}

#[test]
fn parse_target_only() {
    let q = parse_query("de: Hello").unwrap();
    assert_eq!(q.text, vec!["Hello".to_string()]);
    assert_eq!(q.target, TargetLanguageCode::DE);
    assert_eq!(q.source, None);
}

#[test]
fn parse_source_and_target() {
    let q = parse_query("en->de: Hello").unwrap();
    assert_eq!(q.text, vec!["Hello".to_string()]);
    assert_eq!(q.target, TargetLanguageCode::DE);
    assert_eq!(q.source, Some(SourceLanguageCode::EN));
}

#[test]
fn parse_trims_and_lowercases_tokens() {
    let q = parse_query("  English ->  GERMAN :   Hello there  ").unwrap();
    assert_eq!(q.text, vec!["Hello there".to_string()]);
    assert_eq!(q.target, TargetLanguageCode::DE);
    assert_eq!(q.source, Some(SourceLanguageCode::EN));
    let q = parse_query("EN-GB:hi").unwrap();
    assert_eq!(q.target, TargetLanguageCode::EnGb);
    assert_eq!(q.text, vec!["hi".to_string()]);
}

#[test]
fn parse_keeps_later_colons_in_body() {
    let q = parse_query("fr: a: b :c").unwrap();
    assert_eq!(q.text, vec!["a: b :c".to_string()]);
    assert_eq!(q.target, TargetLanguageCode::FR);
}

#[test]
fn parse_empty_body_fails() {
    assert_eq!(parse_query("de:").unwrap_err(), ParseFailure::EmptyBody);
    assert_eq!(parse_query("de:    ").unwrap_err(), ParseFailure::EmptyBody);
    let r = prepare_call(Some("key"), "de:", true);
    assert_eq!(r.unwrap_err(), SearchFailure::Parse(ParseFailure::EmptyBody));
}

#[test]
fn parse_two_arrows_fails() {
    assert_eq!(parse_query("a->b->c: Hello").unwrap_err(), ParseFailure::TooManyArrows);
}

#[test]
fn parse_unknown_target_fails() {
    assert_eq!(parse_query("xx: Hello").unwrap_err(), ParseFailure::InvalidTargetCode);
    assert_eq!(parse_query("en->xx: Hello").unwrap_err(), ParseFailure::InvalidTargetCode);
}

#[test]
fn parse_unknown_source_fails() {
    assert_eq!(parse_query("xx->de: Hello").unwrap_err(), ParseFailure::InvalidSourceCode);
    assert_eq!(parse_query("->de: Hello").unwrap_err(), ParseFailure::InvalidSourceCode);
    assert_eq!(parse_query("en-gb->de: Hello").unwrap_err(), ParseFailure::InvalidSourceCode);
}

#[test]
fn parse_without_codes_fails() {
    assert_eq!(parse_query("Hello").unwrap_err(), ParseFailure::NoQueryBody);
    assert_eq!(parse_query("").unwrap_err(), ParseFailure::NoQueryBody);
    assert_eq!(parse_query("  : Hello").unwrap_err(), ParseFailure::NoQueryBody);
}

#[test]
fn clipboard_with_query_and_codes() {
    let call = prepare_call(Some("key"), "de: Hello", true).unwrap();
    let out = finish_search(&call.request, &vec![reply("EN", "Hallo")], &settings(true, true))
        .unwrap();
    assert_eq!(out.len(), 1);
    assert_eq!(out[0].display_text, "Hallo");
    assert_eq!(out[0].clipboard_text, "EN: Hello\nDE: Hallo");
}

#[test]
fn clipboard_with_translation_only() {
    let call = prepare_call(Some("key"), "de: Hello", true).unwrap();
    let out = finish_search(&call.request, &vec![reply("EN", "Hallo")], &settings(false, false))
        .unwrap();
    assert_eq!(out.len(), 1);
    assert_eq!(out[0].display_text, "Hallo");
    assert_eq!(out[0].clipboard_text, "Hallo");
}

#[test]
fn clipboard_toggles_are_independent() {
    let call = prepare_call(Some("key"), "de: Hello", true).unwrap();
    let items = vec![reply("EN", "Hallo")];
    let out = finish_search(&call.request, &items, &settings(true, false)).unwrap();
    assert_eq!(out[0].clipboard_text, "Hello\nHallo");
    let out = finish_search(&call.request, &items, &settings(false, true)).unwrap();
    assert_eq!(out[0].clipboard_text, "DE: Hallo");
}

#[test]
fn clipboard_prefers_the_given_source() {
    let call = prepare_call(Some("key"), "fr -> en-us: Bonjour", false).unwrap();
    let out = finish_search(&call.request, &vec![reply("IT", "Hello")], &settings(true, true))
        .unwrap();
    assert_eq!(out[0].clipboard_text, "FR: Bonjour\nEN-US: Hello");
}

#[test]
fn results_follow_reply_order() {
    let request = TranslationRequest {
        text: vec!["Hi".to_string()],
        target: TargetLanguageCode::PtBr,
        source: None,
    };
    let items = vec![
        TranslatedItem { detected_source: SourceLanguageCode::EN, text: "Oi".to_string() },
        TranslatedItem { detected_source: SourceLanguageCode::NL, text: "Olá".to_string() },
    ];
    let out = format_results(&request, &items, true, true);
    assert_eq!(out.len(), 2);
    assert_eq!(out[0].display_text, "Oi");
    assert_eq!(out[0].clipboard_text, "EN: Hi\nPT-BR: Oi");
    assert_eq!(out[1].display_text, "Olá");
    assert_eq!(out[1].clipboard_text, "NL: Hi\nPT-BR: Olá");
    assert!(format_results(&request, &vec![], true, true).is_empty());
}

#[test]
fn clipboard_text_exact() {
    let s = clipboard_text("a", SourceLanguageCode::JA, TargetLanguageCode::KO, "b", true, true);
    assert_eq!(s, "JA: a\nKO: b");
    let s = clipboard_text("a", SourceLanguageCode::JA, TargetLanguageCode::KO, "b", false, false);
    assert_eq!(s, "b");
}

#[test]
fn unknown_detected_language_fails_decoding() {
    let call = prepare_call(Some("key"), "de: Hello", true).unwrap();
    let r = finish_search(&call.request, &vec![reply("EN", "Hallo"), reply("XX", "?")], &settings(false, false));
    assert_eq!(r.unwrap_err(), SearchFailure::Decode);
    assert_eq!(decode_reply(&vec![reply("en", "x")]).unwrap_err(), SearchFailure::Decode);
    let ok = decode_reply(&vec![reply("PT", "x")]).unwrap();
    assert_eq!(ok[0].detected_source, SourceLanguageCode::PT);
    assert_eq!(ok[0].text, "x");
}

#[test]
fn missing_key_short_circuits() {
    assert_eq!(prepare_call(None, "de: Hello", true).unwrap_err(), SearchFailure::MissingApiKey);
    assert_eq!(prepare_call(Some(""), "de: Hello", true).unwrap_err(), SearchFailure::MissingApiKey);
    assert_eq!(prepare_call(Some(""), "xx", false).unwrap_err(), SearchFailure::MissingApiKey);
}

#[test]
fn call_carries_endpoint_and_key() {
    let call = prepare_call(Some("abc"), "en->de: Hello", true).unwrap();
    assert_eq!(call.url, "https://api-free.deepl.com/v2/translate");
    assert_eq!(call.authorization, "DeepL-Auth-Key abc");
    assert_eq!(call.request.source, Some(SourceLanguageCode::EN));
    let call = prepare_call(Some("abc"), "de: Hello", false).unwrap();
    assert_eq!(call.url, "https://api.deepl.com/v2/translate");
    assert_eq!(endpoint(true), "https://api-free.deepl.com/v2/translate");
    assert_eq!(authorization("k:1"), "DeepL-Auth-Key k:1");
}

#[test]
fn failure_log_levels() {
    assert_eq!(SearchFailure::MissingApiKey.log_level(), LogLevel::Error);
    assert_eq!(SearchFailure::Transport.log_level(), LogLevel::Error);
    assert_eq!(SearchFailure::Decode.log_level(), LogLevel::Error);
    assert_eq!(SearchFailure::Parse(ParseFailure::EmptyBody).log_level(), LogLevel::Trace);
    assert_eq!(SearchFailure::Parse(ParseFailure::NoQueryBody).log_level(), LogLevel::Trace);
    assert_eq!(SearchFailure::Parse(ParseFailure::TooManyArrows).log_level(), LogLevel::Warn);
    assert_eq!(SearchFailure::Parse(ParseFailure::InvalidSourceCode).log_level(), LogLevel::Warn);
    assert_eq!(SearchFailure::Parse(ParseFailure::InvalidTargetCode).log_level(), LogLevel::Warn);
}

#[test]
fn default_settings() {
    let s = Settings::default();
    assert_eq!(s.api_key, "");
    assert!(s.use_free_tier);
    assert!(!s.include_query);
    assert!(!s.include_codes);
}

#[test]
fn parse_trims_unicode_white_space() {
    let q = parse_query("\u{3000}de\u{a0}:\u{2003}Hallo\u{85}").unwrap();
    assert_eq!(q.target, TargetLanguageCode::DE);
    assert_eq!(q.text, vec!["Hallo".to_string()]);
}

#[test]
fn parse_lowercases_beyond_ascii() {
    let q = parse_query("\u{212A}O: annyeong").unwrap();
    assert_eq!(q.target, TargetLanguageCode::KO);
    let q = parse_query("PT-BR -> en-GB : Olá").unwrap_err();
    assert_eq!(q, ParseFailure::InvalidSourceCode);
}
