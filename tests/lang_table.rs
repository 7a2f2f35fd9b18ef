use deepl_translate::lang::{SourceLanguageCode, TargetLanguageCode};

#[test]
fn every_source_token_resolves() {
    let table: Vec<(&str, SourceLanguageCode)> = vec![
        ("ar", SourceLanguageCode::AR),
        ("arabic", SourceLanguageCode::AR),
        ("bg", SourceLanguageCode::BG),
        ("bulgarian", SourceLanguageCode::BG),
        ("cs", SourceLanguageCode::CS),
        ("czech", SourceLanguageCode::CS),
        ("da", SourceLanguageCode::DA),
        ("danish", SourceLanguageCode::DA),
        ("de", SourceLanguageCode::DE),
        ("german", SourceLanguageCode::DE),
        ("el", SourceLanguageCode::EL),
        ("greek", SourceLanguageCode::EL),
        ("en", SourceLanguageCode::EN),
        ("english", SourceLanguageCode::EN),
        ("es", SourceLanguageCode::ES),
        ("spanish", SourceLanguageCode::ES),
        ("et", SourceLanguageCode::ET),
        ("estonian", SourceLanguageCode::ET),
        ("fi", SourceLanguageCode::FI),
        ("finnish", SourceLanguageCode::FI),
        ("fr", SourceLanguageCode::FR),
        ("french", SourceLanguageCode::FR),
        ("hu", SourceLanguageCode::HU),
        ("hungarian", SourceLanguageCode::HU),
        ("id", SourceLanguageCode::ID),
        ("indonesian", SourceLanguageCode::ID),
        ("it", SourceLanguageCode::IT),
        ("italian", SourceLanguageCode::IT),
        ("jp", SourceLanguageCode::JA),
        ("ja", SourceLanguageCode::JA),
        ("japanese", SourceLanguageCode::JA),
        ("ko", SourceLanguageCode::KO),
        ("korean", SourceLanguageCode::KO),
        ("lt", SourceLanguageCode::LT),
        ("lithuanian", SourceLanguageCode::LT),
        ("lv", SourceLanguageCode::LV),
        ("latvian", SourceLanguageCode::LV),
        ("nb", SourceLanguageCode::NB),
        ("norwegian", SourceLanguageCode::NB),
        ("nl", SourceLanguageCode::NL),
        ("dutch", SourceLanguageCode::NL),
        ("pl", SourceLanguageCode::PL),
        ("polish", SourceLanguageCode::PL),
        ("pt", SourceLanguageCode::PT),
        ("portuguese", SourceLanguageCode::PT),
        ("ro", SourceLanguageCode::RO),
        ("romanian", SourceLanguageCode::RO),
        ("ru", SourceLanguageCode::RU),
        ("russian", SourceLanguageCode::RU),
        ("sk", SourceLanguageCode::SK),
        ("slovak", SourceLanguageCode::SK),
        ("sl", SourceLanguageCode::SL),
        ("slovenian", SourceLanguageCode::SL),
        ("sv", SourceLanguageCode::SV),
        ("swedish", SourceLanguageCode::SV),
        ("tr", SourceLanguageCode::TR),
        ("turkish", SourceLanguageCode::TR),
        ("uk", SourceLanguageCode::UK),
        ("ukrainian", SourceLanguageCode::UK),
        ("zh", SourceLanguageCode::ZH),
        ("chinese", SourceLanguageCode::ZH),
    ];
    for (token, code) in table {
        assert_eq!(SourceLanguageCode::guess_from_str(token), Some(code), "token {}", token);
    }
}

#[test]
fn every_target_token_resolves() {
    let table: Vec<(&str, TargetLanguageCode)> = vec![
        ("ar", TargetLanguageCode::AR),
        ("arabic", TargetLanguageCode::AR),
        ("bg", TargetLanguageCode::BG),
        ("bulgarian", TargetLanguageCode::BG),
        ("cs", TargetLanguageCode::CS),
        ("czech", TargetLanguageCode::CS),
        ("da", TargetLanguageCode::DA),
        ("danish", TargetLanguageCode::DA),
        ("de", TargetLanguageCode::DE),
        ("german", TargetLanguageCode::DE),
        ("el", TargetLanguageCode::EL),
        ("greek", TargetLanguageCode::EL),
        ("en", TargetLanguageCode::EN),
        ("english", TargetLanguageCode::EN),
        ("en-gb", TargetLanguageCode::EnGb),
        ("en-us", TargetLanguageCode::EnUs),
        ("es", TargetLanguageCode::ES),
        ("spanish", TargetLanguageCode::ES),
        ("et", TargetLanguageCode::ET),
        ("estonian", TargetLanguageCode::ET),
        ("fi", TargetLanguageCode::FI),
        ("finnish", TargetLanguageCode::FI),
        ("fr", TargetLanguageCode::FR),
        ("french", TargetLanguageCode::FR),
        ("hu", TargetLanguageCode::HU),
        ("hungarian", TargetLanguageCode::HU),
        ("id", TargetLanguageCode::ID),
        ("indonesian", TargetLanguageCode::ID),
        ("it", TargetLanguageCode::IT),
        ("italian", TargetLanguageCode::IT),
        ("jp", TargetLanguageCode::JA),
        ("ja", TargetLanguageCode::JA),
        ("japanese", TargetLanguageCode::JA),
        ("ko", TargetLanguageCode::KO),
        ("korean", TargetLanguageCode::KO),
        ("lt", TargetLanguageCode::LT),
        ("lithuanian", TargetLanguageCode::LT),
        ("lv", TargetLanguageCode::LV),
        ("latvian", TargetLanguageCode::LV),
        ("nb", TargetLanguageCode::NB),
        ("norwegian", TargetLanguageCode::NB),
        ("nl", TargetLanguageCode::NL),
        ("dutch", TargetLanguageCode::NL),
        ("pl", TargetLanguageCode::PL),
        ("polish", TargetLanguageCode::PL),
        ("pt", TargetLanguageCode::PT),
        ("portuguese", TargetLanguageCode::PT),
        ("pt-br", TargetLanguageCode::PtBr),
        ("pt-pt", TargetLanguageCode::PtPt),
        ("ro", TargetLanguageCode::RO),
        ("romanian", TargetLanguageCode::RO),
        ("ru", TargetLanguageCode::RU),
        ("russian", TargetLanguageCode::RU),
        ("sk", TargetLanguageCode::SK),
        ("slovak", TargetLanguageCode::SK),
        ("sl", TargetLanguageCode::SL),
        ("slovenian", TargetLanguageCode::SL),
        ("sv", TargetLanguageCode::SV),
        ("swedish", TargetLanguageCode::SV),
        ("tr", TargetLanguageCode::TR),
        ("turkish", TargetLanguageCode::TR),
        ("uk", TargetLanguageCode::UK),
        ("ukrainian", TargetLanguageCode::UK),
        ("zh", TargetLanguageCode::ZH),
        ("chinese", TargetLanguageCode::ZH),
    ];
    for (token, code) in table {
        assert_eq!(TargetLanguageCode::guess_from_str(token), Some(code), "token {}", token);
    }
}

#[test]
fn unknown_tokens_are_not_found() {
    for token in ["xx", "", "DE", " de", "en-gb ", "germany", "pt-br-x"] {
        assert_eq!(TargetLanguageCode::guess_from_str(token), None, "token {:?}", token);
    }
    for token in ["xx", "", "EN", "en-gb", "en-us", "pt-br", "pt-pt", "japan"] {
        assert_eq!(SourceLanguageCode::guess_from_str(token), None, "token {:?}", token);
    }
}

#[test]
fn regional_variants_stay_distinct() {
    let en = TargetLanguageCode::guess_from_str("en").unwrap();
    let en_gb = TargetLanguageCode::guess_from_str("en-gb").unwrap();
    let en_us = TargetLanguageCode::guess_from_str("en-us").unwrap();
    assert_eq!(en, TargetLanguageCode::EN);
    assert_ne!(en, en_gb);
    assert_ne!(en, en_us);
    assert_ne!(en_gb, en_us);
    let pt = TargetLanguageCode::guess_from_str("pt").unwrap();
    let pt_br = TargetLanguageCode::guess_from_str("pt-br").unwrap();
    let pt_pt = TargetLanguageCode::guess_from_str("pt-pt").unwrap();
    assert_eq!(pt, TargetLanguageCode::PT);
    assert_ne!(pt, pt_br);
    assert_ne!(pt, pt_pt);
    assert_ne!(pt_br, pt_pt);
}

#[test]
fn wire_codes_and_names() {
    assert_eq!(TargetLanguageCode::EnGb.wire_code(), "EN-GB");
    assert_eq!(TargetLanguageCode::PtPt.wire_code(), "PT-PT");
    assert_eq!(TargetLanguageCode::DE.wire_code(), "DE");
    assert_eq!(SourceLanguageCode::JA.wire_code(), "JA");
    assert_eq!(TargetLanguageCode::EnGb.display_name(), "English (British)");
    assert_eq!(TargetLanguageCode::PtPt.display_name(), "Portuguese (Other)");
    assert_eq!(TargetLanguageCode::ZH.display_name(), "Chinese (simplified)");
    assert_eq!(SourceLanguageCode::ZH.display_name(), "Chinese");
    assert_eq!(SourceLanguageCode::NB.display_name(), "Norwegian (Bokmål)");
    assert_eq!(SourceLanguageCode::DE.display_name(), "German");
}

#[test]
fn source_wire_codes_read_back() {
    assert_eq!(SourceLanguageCode::from_wire_code("EN"), Some(SourceLanguageCode::EN));
    assert_eq!(SourceLanguageCode::from_wire_code("ZH"), Some(SourceLanguageCode::ZH));
    assert_eq!(SourceLanguageCode::from_wire_code("en"), None);
    assert_eq!(SourceLanguageCode::from_wire_code("EN-GB"), None);
    assert_eq!(SourceLanguageCode::from_wire_code(""), None);
}
