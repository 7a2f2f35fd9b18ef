use vstd::prelude::*;

use crate::text::same_text;

verus! {

/// A language that a text to translate may be written in.
#[derive(Debug, Clone, Copy, PartialEq, Eq, Structural)]
pub enum SourceLanguageCode {
    /// Arabic
    AR,
    /// Bulgarian
    BG,
    /// Czech
    CS,
    /// Danish
    DA,
    /// German
    DE,
    /// Greek
    EL,
    /// English
    EN,
    /// Spanish
    ES,
    /// Estonian
    ET,
    /// Finnish
    FI,
    /// French
    FR,
    /// Hungarian
    HU,
    /// Indonesian
    ID,
    /// Italian
    IT,
    /// Japanese
    JA,
    /// Korean
    KO,
    /// Lithuanian
    LT,
    /// Latvian
    LV,
    /// Norwegian (Bokmål)
    NB,
    /// Dutch
    NL,
    /// Polish
    PL,
    /// Portuguese, all varieties mixed
    PT,
    /// Romanian
    RO,
    /// Russian
    RU,
    /// Slovak
    SK,
    /// Slovenian
    SL,
    /// Swedish
    SV,
    /// Turkish
    TR,
    /// Ukrainian
    UK,
    /// Chinese
    ZH,
}

/// The source language that a lowercase token names, if any.
pub open spec fn source_code_of(t: Seq<char>) -> Option<SourceLanguageCode> {
    if t == "ar"@ || t == "arabic"@ {
        Some(SourceLanguageCode::AR)
    } else if t == "bg"@ || t == "bulgarian"@ {
        Some(SourceLanguageCode::BG)
    } else if t == "cs"@ || t == "czech"@ {
        Some(SourceLanguageCode::CS)
    } else if t == "da"@ || t == "danish"@ {
        Some(SourceLanguageCode::DA)
    } else if t == "de"@ || t == "german"@ {
        Some(SourceLanguageCode::DE)
    } else if t == "el"@ || t == "greek"@ {
        Some(SourceLanguageCode::EL)
    } else if t == "en"@ || t == "english"@ {
        Some(SourceLanguageCode::EN)
    } else if t == "es"@ || t == "spanish"@ {
        Some(SourceLanguageCode::ES)
    } else if t == "et"@ || t == "estonian"@ {
        Some(SourceLanguageCode::ET)
    } else if t == "fi"@ || t == "finnish"@ {
        Some(SourceLanguageCode::FI)
    } else if t == "fr"@ || t == "french"@ {
        Some(SourceLanguageCode::FR)
    } else if t == "hu"@ || t == "hungarian"@ {
        Some(SourceLanguageCode::HU)
    } else if t == "id"@ || t == "indonesian"@ {
        Some(SourceLanguageCode::ID)
    } else if t == "it"@ || t == "italian"@ {
        Some(SourceLanguageCode::IT)
    } else if t == "jp"@ || t == "ja"@ || t == "japanese"@ {
        Some(SourceLanguageCode::JA)
    } else if t == "ko"@ || t == "korean"@ {
        Some(SourceLanguageCode::KO)
    } else if t == "lt"@ || t == "lithuanian"@ {
        Some(SourceLanguageCode::LT)
    } else if t == "lv"@ || t == "latvian"@ {
        Some(SourceLanguageCode::LV)
    } else if t == "nb"@ || t == "norwegian"@ {
        Some(SourceLanguageCode::NB)
    } else if t == "nl"@ || t == "dutch"@ {
        Some(SourceLanguageCode::NL)
    } else if t == "pl"@ || t == "polish"@ {
        Some(SourceLanguageCode::PL)
    } else if t == "pt"@ || t == "portuguese"@ {
        Some(SourceLanguageCode::PT)
    } else if t == "ro"@ || t == "romanian"@ {
        Some(SourceLanguageCode::RO)
    } else if t == "ru"@ || t == "russian"@ {
        Some(SourceLanguageCode::RU)
    } else if t == "sk"@ || t == "slovak"@ {
        Some(SourceLanguageCode::SK)
    } else if t == "sl"@ || t == "slovenian"@ {
        Some(SourceLanguageCode::SL)
    } else if t == "sv"@ || t == "swedish"@ {
        Some(SourceLanguageCode::SV)
    } else if t == "tr"@ || t == "turkish"@ {
        Some(SourceLanguageCode::TR)
    } else if t == "uk"@ || t == "ukrainian"@ {
        Some(SourceLanguageCode::UK)
    } else if t == "zh"@ || t == "chinese"@ {
        Some(SourceLanguageCode::ZH)
    } else {
        None
    }
}

/// The code by which the translation service knows a source language.
pub open spec fn source_wire(c: SourceLanguageCode) -> Seq<char> {
    match c {
        SourceLanguageCode::AR => "AR"@,
        SourceLanguageCode::BG => "BG"@,
        SourceLanguageCode::CS => "CS"@,
        SourceLanguageCode::DA => "DA"@,
        SourceLanguageCode::DE => "DE"@,
        SourceLanguageCode::EL => "EL"@,
        SourceLanguageCode::EN => "EN"@,
        SourceLanguageCode::ES => "ES"@,
        SourceLanguageCode::ET => "ET"@,
        SourceLanguageCode::FI => "FI"@,
        SourceLanguageCode::FR => "FR"@,
        SourceLanguageCode::HU => "HU"@,
        SourceLanguageCode::ID => "ID"@,
        SourceLanguageCode::IT => "IT"@,
        SourceLanguageCode::JA => "JA"@,
        SourceLanguageCode::KO => "KO"@,
        SourceLanguageCode::LT => "LT"@,
        SourceLanguageCode::LV => "LV"@,
        SourceLanguageCode::NB => "NB"@,
        SourceLanguageCode::NL => "NL"@,
        SourceLanguageCode::PL => "PL"@,
        SourceLanguageCode::PT => "PT"@,
        SourceLanguageCode::RO => "RO"@,
        SourceLanguageCode::RU => "RU"@,
        SourceLanguageCode::SK => "SK"@,
        SourceLanguageCode::SL => "SL"@,
        SourceLanguageCode::SV => "SV"@,
        SourceLanguageCode::TR => "TR"@,
        SourceLanguageCode::UK => "UK"@,
        SourceLanguageCode::ZH => "ZH"@,
    }
}

/// The source language that the translation service's code names, if any.
pub open spec fn source_from_wire(s: Seq<char>) -> Option<SourceLanguageCode> {
    if s == "AR"@ {
        Some(SourceLanguageCode::AR)
    } else if s == "BG"@ {
        Some(SourceLanguageCode::BG)
    } else if s == "CS"@ {
        Some(SourceLanguageCode::CS)
    } else if s == "DA"@ {
        Some(SourceLanguageCode::DA)
    } else if s == "DE"@ {
        Some(SourceLanguageCode::DE)
    } else if s == "EL"@ {
        Some(SourceLanguageCode::EL)
    } else if s == "EN"@ {
        Some(SourceLanguageCode::EN)
    } else if s == "ES"@ {
        Some(SourceLanguageCode::ES)
    } else if s == "ET"@ {
        Some(SourceLanguageCode::ET)
    } else if s == "FI"@ {
        Some(SourceLanguageCode::FI)
    } else if s == "FR"@ {
        Some(SourceLanguageCode::FR)
    } else if s == "HU"@ {
        Some(SourceLanguageCode::HU)
    } else if s == "ID"@ {
        Some(SourceLanguageCode::ID)
    } else if s == "IT"@ {
        Some(SourceLanguageCode::IT)
    } else if s == "JA"@ {
        Some(SourceLanguageCode::JA)
    } else if s == "KO"@ {
        Some(SourceLanguageCode::KO)
    } else if s == "LT"@ {
        Some(SourceLanguageCode::LT)
    } else if s == "LV"@ {
        Some(SourceLanguageCode::LV)
    } else if s == "NB"@ {
        Some(SourceLanguageCode::NB)
    } else if s == "NL"@ {
        Some(SourceLanguageCode::NL)
    } else if s == "PL"@ {
        Some(SourceLanguageCode::PL)
    } else if s == "PT"@ {
        Some(SourceLanguageCode::PT)
    } else if s == "RO"@ {
        Some(SourceLanguageCode::RO)
    } else if s == "RU"@ {
        Some(SourceLanguageCode::RU)
    } else if s == "SK"@ {
        Some(SourceLanguageCode::SK)
    } else if s == "SL"@ {
        Some(SourceLanguageCode::SL)
    } else if s == "SV"@ {
        Some(SourceLanguageCode::SV)
    } else if s == "TR"@ {
        Some(SourceLanguageCode::TR)
    } else if s == "UK"@ {
        Some(SourceLanguageCode::UK)
    } else if s == "ZH"@ {
        Some(SourceLanguageCode::ZH)
    } else {
        None
    }
}

/// The English name under which a source language is shown.
pub open spec fn source_display(c: SourceLanguageCode) -> Seq<char> {
    match c {
        SourceLanguageCode::AR => "Arabic"@,
        SourceLanguageCode::BG => "Bulgarian"@,
        SourceLanguageCode::CS => "Czech"@,
        SourceLanguageCode::DA => "Danish"@,
        SourceLanguageCode::DE => "German"@,
        SourceLanguageCode::EL => "Greek"@,
        SourceLanguageCode::EN => "English"@,
        SourceLanguageCode::ES => "Spanish"@,
        SourceLanguageCode::ET => "Estonian"@,
        SourceLanguageCode::FI => "Finnish"@,
        SourceLanguageCode::FR => "French"@,
        SourceLanguageCode::HU => "Hungarian"@,
        SourceLanguageCode::ID => "Indonesian"@,
        SourceLanguageCode::IT => "Italian"@,
        SourceLanguageCode::JA => "Japanese"@,
        SourceLanguageCode::KO => "Korean"@,
        SourceLanguageCode::LT => "Lithuanian"@,
        SourceLanguageCode::LV => "Latvian"@,
        SourceLanguageCode::NB => "Norwegian (Bokmål)"@,
        SourceLanguageCode::NL => "Dutch"@,
        SourceLanguageCode::PL => "Polish"@,
        SourceLanguageCode::PT => "Portuguese"@,
        SourceLanguageCode::RO => "Romanian"@,
        SourceLanguageCode::RU => "Russian"@,
        SourceLanguageCode::SK => "Slovak"@,
        SourceLanguageCode::SL => "Slovenian"@,
        SourceLanguageCode::SV => "Swedish"@,
        SourceLanguageCode::TR => "Turkish"@,
        SourceLanguageCode::UK => "Ukrainian"@,
        SourceLanguageCode::ZH => "Chinese"@,
    }
}

impl SourceLanguageCode {
    /// Looks up a token, already trimmed and lowercased: a short code such as `de` or an
    /// English name such as `german`.
    pub fn guess_from_str(s: &str) -> (r: Option<SourceLanguageCode>)
        ensures
            r == source_code_of(s@),
    {
        if same_text(s, "ar") || same_text(s, "arabic") {
            Some(SourceLanguageCode::AR)
        } else if same_text(s, "bg") || same_text(s, "bulgarian") {
            Some(SourceLanguageCode::BG)
        } else if same_text(s, "cs") || same_text(s, "czech") {
            Some(SourceLanguageCode::CS)
        } else if same_text(s, "da") || same_text(s, "danish") {
            Some(SourceLanguageCode::DA)
        } else if same_text(s, "de") || same_text(s, "german") {
            Some(SourceLanguageCode::DE)
        } else if same_text(s, "el") || same_text(s, "greek") {
            Some(SourceLanguageCode::EL)
        } else if same_text(s, "en") || same_text(s, "english") {
            Some(SourceLanguageCode::EN)
        } else if same_text(s, "es") || same_text(s, "spanish") {
            Some(SourceLanguageCode::ES)
        } else if same_text(s, "et") || same_text(s, "estonian") {
            Some(SourceLanguageCode::ET)
        } else if same_text(s, "fi") || same_text(s, "finnish") {
            Some(SourceLanguageCode::FI)
        } else if same_text(s, "fr") || same_text(s, "french") {
            Some(SourceLanguageCode::FR)
        } else if same_text(s, "hu") || same_text(s, "hungarian") {
            Some(SourceLanguageCode::HU)
        } else if same_text(s, "id") || same_text(s, "indonesian") {
            Some(SourceLanguageCode::ID)
        } else if same_text(s, "it") || same_text(s, "italian") {
            Some(SourceLanguageCode::IT)
        } else if same_text(s, "jp") || same_text(s, "ja") || same_text(s, "japanese") {
            Some(SourceLanguageCode::JA)
        } else if same_text(s, "ko") || same_text(s, "korean") {
            Some(SourceLanguageCode::KO)
        } else if same_text(s, "lt") || same_text(s, "lithuanian") {
            Some(SourceLanguageCode::LT)
        } else if same_text(s, "lv") || same_text(s, "latvian") {
            Some(SourceLanguageCode::LV)
        } else if same_text(s, "nb") || same_text(s, "norwegian") {
            Some(SourceLanguageCode::NB)
        } else if same_text(s, "nl") || same_text(s, "dutch") {
            Some(SourceLanguageCode::NL)
        } else if same_text(s, "pl") || same_text(s, "polish") {
            Some(SourceLanguageCode::PL)
        } else if same_text(s, "pt") || same_text(s, "portuguese") {
            Some(SourceLanguageCode::PT)
        } else if same_text(s, "ro") || same_text(s, "romanian") {
            Some(SourceLanguageCode::RO)
        } else if same_text(s, "ru") || same_text(s, "russian") {
            Some(SourceLanguageCode::RU)
        } else if same_text(s, "sk") || same_text(s, "slovak") {
            Some(SourceLanguageCode::SK)
        } else if same_text(s, "sl") || same_text(s, "slovenian") {
            Some(SourceLanguageCode::SL)
        } else if same_text(s, "sv") || same_text(s, "swedish") {
            Some(SourceLanguageCode::SV)
        } else if same_text(s, "tr") || same_text(s, "turkish") {
            Some(SourceLanguageCode::TR)
        } else if same_text(s, "uk") || same_text(s, "ukrainian") {
            Some(SourceLanguageCode::UK)
        } else if same_text(s, "zh") || same_text(s, "chinese") {
            Some(SourceLanguageCode::ZH)
        } else {
            None
        }
    }

    /// The code sent to and received from the translation service, such as `DE`.
    pub fn wire_code(&self) -> (r: &'static str)
        ensures
            r@ == source_wire(*self),
    {
        match self {
            SourceLanguageCode::AR => "AR",
            SourceLanguageCode::BG => "BG",
            SourceLanguageCode::CS => "CS",
            SourceLanguageCode::DA => "DA",
            SourceLanguageCode::DE => "DE",
            SourceLanguageCode::EL => "EL",
            SourceLanguageCode::EN => "EN",
            SourceLanguageCode::ES => "ES",
            SourceLanguageCode::ET => "ET",
            SourceLanguageCode::FI => "FI",
            SourceLanguageCode::FR => "FR",
            SourceLanguageCode::HU => "HU",
            SourceLanguageCode::ID => "ID",
            SourceLanguageCode::IT => "IT",
            SourceLanguageCode::JA => "JA",
            SourceLanguageCode::KO => "KO",
            SourceLanguageCode::LT => "LT",
            SourceLanguageCode::LV => "LV",
            SourceLanguageCode::NB => "NB",
            SourceLanguageCode::NL => "NL",
            SourceLanguageCode::PL => "PL",
            SourceLanguageCode::PT => "PT",
            SourceLanguageCode::RO => "RO",
            SourceLanguageCode::RU => "RU",
            SourceLanguageCode::SK => "SK",
            SourceLanguageCode::SL => "SL",
            SourceLanguageCode::SV => "SV",
            SourceLanguageCode::TR => "TR",
            SourceLanguageCode::UK => "UK",
            SourceLanguageCode::ZH => "ZH",
        }
    }

    /// The English name of the language, such as `German`.
    pub fn display_name(&self) -> (r: &'static str)
        ensures
            r@ == source_display(*self),
    {
        match self {
            SourceLanguageCode::AR => "Arabic",
            SourceLanguageCode::BG => "Bulgarian",
            SourceLanguageCode::CS => "Czech",
            SourceLanguageCode::DA => "Danish",
            SourceLanguageCode::DE => "German",
            SourceLanguageCode::EL => "Greek",
            SourceLanguageCode::EN => "English",
            SourceLanguageCode::ES => "Spanish",
            SourceLanguageCode::ET => "Estonian",
            SourceLanguageCode::FI => "Finnish",
            SourceLanguageCode::FR => "French",
            SourceLanguageCode::HU => "Hungarian",
            SourceLanguageCode::ID => "Indonesian",
            SourceLanguageCode::IT => "Italian",
            SourceLanguageCode::JA => "Japanese",
            SourceLanguageCode::KO => "Korean",
            SourceLanguageCode::LT => "Lithuanian",
            SourceLanguageCode::LV => "Latvian",
            SourceLanguageCode::NB => "Norwegian (Bokmål)",
            SourceLanguageCode::NL => "Dutch",
            SourceLanguageCode::PL => "Polish",
            SourceLanguageCode::PT => "Portuguese",
            SourceLanguageCode::RO => "Romanian",
            SourceLanguageCode::RU => "Russian",
            SourceLanguageCode::SK => "Slovak",
            SourceLanguageCode::SL => "Slovenian",
            SourceLanguageCode::SV => "Swedish",
            SourceLanguageCode::TR => "Turkish",
            SourceLanguageCode::UK => "Ukrainian",
            SourceLanguageCode::ZH => "Chinese",
        }
    }

    /// Reads the code that the translation service uses for the language, such as `EN`.
    pub fn from_wire_code(s: &str) -> (r: Option<SourceLanguageCode>)
        ensures
            r == source_from_wire(s@),
    {
        if same_text(s, "AR") {
            Some(SourceLanguageCode::AR)
        } else if same_text(s, "BG") {
            Some(SourceLanguageCode::BG)
        } else if same_text(s, "CS") {
            Some(SourceLanguageCode::CS)
        } else if same_text(s, "DA") {
            Some(SourceLanguageCode::DA)
        } else if same_text(s, "DE") {
            Some(SourceLanguageCode::DE)
        } else if same_text(s, "EL") {
            Some(SourceLanguageCode::EL)
        } else if same_text(s, "EN") {
            Some(SourceLanguageCode::EN)
        } else if same_text(s, "ES") {
            Some(SourceLanguageCode::ES)
        } else if same_text(s, "ET") {
            Some(SourceLanguageCode::ET)
        } else if same_text(s, "FI") {
            Some(SourceLanguageCode::FI)
        } else if same_text(s, "FR") {
            Some(SourceLanguageCode::FR)
        } else if same_text(s, "HU") {
            Some(SourceLanguageCode::HU)
        } else if same_text(s, "ID") {
            Some(SourceLanguageCode::ID)
        } else if same_text(s, "IT") {
            Some(SourceLanguageCode::IT)
        } else if same_text(s, "JA") {
            Some(SourceLanguageCode::JA)
        } else if same_text(s, "KO") {
            Some(SourceLanguageCode::KO)
        } else if same_text(s, "LT") {
            Some(SourceLanguageCode::LT)
        } else if same_text(s, "LV") {
            Some(SourceLanguageCode::LV)
        } else if same_text(s, "NB") {
            Some(SourceLanguageCode::NB)
        } else if same_text(s, "NL") {
            Some(SourceLanguageCode::NL)
        } else if same_text(s, "PL") {
            Some(SourceLanguageCode::PL)
        } else if same_text(s, "PT") {
            Some(SourceLanguageCode::PT)
        } else if same_text(s, "RO") {
            Some(SourceLanguageCode::RO)
        } else if same_text(s, "RU") {
            Some(SourceLanguageCode::RU)
        } else if same_text(s, "SK") {
            Some(SourceLanguageCode::SK)
        } else if same_text(s, "SL") {
            Some(SourceLanguageCode::SL)
        } else if same_text(s, "SV") {
            Some(SourceLanguageCode::SV)
        } else if same_text(s, "TR") {
            Some(SourceLanguageCode::TR)
        } else if same_text(s, "UK") {
            Some(SourceLanguageCode::UK)
        } else if same_text(s, "ZH") {
            Some(SourceLanguageCode::ZH)
        } else {
            None
        }
    }
}

/// A language that a text may be translated into.
#[derive(Debug, Clone, Copy, PartialEq, Eq, Structural)]
pub enum TargetLanguageCode {
    /// Arabic
    AR,
    /// Bulgarian
    BG,
    /// Czech
    CS,
    /// Danish
    DA,
    /// German
    DE,
    /// Greek
    EL,
    /// English, unspecified variant kept for backward compatibility
    EN,
    /// English (British)
    EnGb,
    /// English (American)
    EnUs,
    /// Spanish
    ES,
    /// Estonian
    ET,
    /// Finnish
    FI,
    /// French
    FR,
    /// Hungarian
    HU,
    /// Indonesian
    ID,
    /// Italian
    IT,
    /// Japanese
    JA,
    /// Korean
    KO,
    /// Lithuanian
    LT,
    /// Latvian
    LV,
    /// Norwegian (Bokmål)
    NB,
    /// Dutch
    NL,
    /// Polish
    PL,
    /// Portuguese, unspecified variant kept for backward compatibility
    PT,
    /// Portuguese (Brazilian)
    PtBr,
    /// Portuguese, all varieties but Brazilian
    PtPt,
    /// Romanian
    RO,
    /// Russian
    RU,
    /// Slovak
    SK,
    /// Slovenian
    SL,
    /// Swedish
    SV,
    /// Turkish
    TR,
    /// Ukrainian
    UK,
    /// Chinese (simplified)
    ZH,
}

/// The target language that a lowercase token names, if any.
pub open spec fn target_code_of(t: Seq<char>) -> Option<TargetLanguageCode> {
    if t == "ar"@ || t == "arabic"@ {
        Some(TargetLanguageCode::AR)
    } else if t == "bg"@ || t == "bulgarian"@ {
        Some(TargetLanguageCode::BG)
    } else if t == "cs"@ || t == "czech"@ {
        Some(TargetLanguageCode::CS)
    } else if t == "da"@ || t == "danish"@ {
        Some(TargetLanguageCode::DA)
    } else if t == "de"@ || t == "german"@ {
        Some(TargetLanguageCode::DE)
    } else if t == "el"@ || t == "greek"@ {
        Some(TargetLanguageCode::EL)
    } else if t == "en"@ || t == "english"@ {
        Some(TargetLanguageCode::EN)
    } else if t == "en-gb"@ {
        Some(TargetLanguageCode::EnGb)
    } else if t == "en-us"@ {
        Some(TargetLanguageCode::EnUs)
    } else if t == "es"@ || t == "spanish"@ {
        Some(TargetLanguageCode::ES)
    } else if t == "et"@ || t == "estonian"@ {
        Some(TargetLanguageCode::ET)
    } else if t == "fi"@ || t == "finnish"@ {
        Some(TargetLanguageCode::FI)
    } else if t == "fr"@ || t == "french"@ {
        Some(TargetLanguageCode::FR)
    } else if t == "hu"@ || t == "hungarian"@ {
        Some(TargetLanguageCode::HU)
    } else if t == "id"@ || t == "indonesian"@ {
        Some(TargetLanguageCode::ID)
    } else if t == "it"@ || t == "italian"@ {
        Some(TargetLanguageCode::IT)
    } else if t == "jp"@ || t == "ja"@ || t == "japanese"@ {
        Some(TargetLanguageCode::JA)
    } else if t == "ko"@ || t == "korean"@ {
        Some(TargetLanguageCode::KO)
    } else if t == "lt"@ || t == "lithuanian"@ {
        Some(TargetLanguageCode::LT)
    } else if t == "lv"@ || t == "latvian"@ {
        Some(TargetLanguageCode::LV)
    } else if t == "nb"@ || t == "norwegian"@ {
        Some(TargetLanguageCode::NB)
    } else if t == "nl"@ || t == "dutch"@ {
        Some(TargetLanguageCode::NL)
    } else if t == "pl"@ || t == "polish"@ {
        Some(TargetLanguageCode::PL)
    } else if t == "pt"@ || t == "portuguese"@ {
        Some(TargetLanguageCode::PT)
    } else if t == "pt-br"@ {
        Some(TargetLanguageCode::PtBr)
    } else if t == "pt-pt"@ {
        Some(TargetLanguageCode::PtPt)
    } else if t == "ro"@ || t == "romanian"@ {
        Some(TargetLanguageCode::RO)
    } else if t == "ru"@ || t == "russian"@ {
        Some(TargetLanguageCode::RU)
    } else if t == "sk"@ || t == "slovak"@ {
        Some(TargetLanguageCode::SK)
    } else if t == "sl"@ || t == "slovenian"@ {
        Some(TargetLanguageCode::SL)
    } else if t == "sv"@ || t == "swedish"@ {
        Some(TargetLanguageCode::SV)
    } else if t == "tr"@ || t == "turkish"@ {
        Some(TargetLanguageCode::TR)
    } else if t == "uk"@ || t == "ukrainian"@ {
        Some(TargetLanguageCode::UK)
    } else if t == "zh"@ || t == "chinese"@ {
        Some(TargetLanguageCode::ZH)
    } else {
        None
    }
}

/// The code by which the translation service knows a target language.
pub open spec fn target_wire(c: TargetLanguageCode) -> Seq<char> {
    match c {
        TargetLanguageCode::AR => "AR"@,
        TargetLanguageCode::BG => "BG"@,
        TargetLanguageCode::CS => "CS"@,
        TargetLanguageCode::DA => "DA"@,
        TargetLanguageCode::DE => "DE"@,
        TargetLanguageCode::EL => "EL"@,
        TargetLanguageCode::EN => "EN"@,
        TargetLanguageCode::EnGb => "EN-GB"@,
        TargetLanguageCode::EnUs => "EN-US"@,
        TargetLanguageCode::ES => "ES"@,
        TargetLanguageCode::ET => "ET"@,
        TargetLanguageCode::FI => "FI"@,
        TargetLanguageCode::FR => "FR"@,
        TargetLanguageCode::HU => "HU"@,
        TargetLanguageCode::ID => "ID"@,
        TargetLanguageCode::IT => "IT"@,
        TargetLanguageCode::JA => "JA"@,
        TargetLanguageCode::KO => "KO"@,
        TargetLanguageCode::LT => "LT"@,
        TargetLanguageCode::LV => "LV"@,
        TargetLanguageCode::NB => "NB"@,
        TargetLanguageCode::NL => "NL"@,
        TargetLanguageCode::PL => "PL"@,
        TargetLanguageCode::PT => "PT"@,
        TargetLanguageCode::PtBr => "PT-BR"@,
        TargetLanguageCode::PtPt => "PT-PT"@,
        TargetLanguageCode::RO => "RO"@,
        TargetLanguageCode::RU => "RU"@,
        TargetLanguageCode::SK => "SK"@,
        TargetLanguageCode::SL => "SL"@,
        TargetLanguageCode::SV => "SV"@,
        TargetLanguageCode::TR => "TR"@,
        TargetLanguageCode::UK => "UK"@,
        TargetLanguageCode::ZH => "ZH"@,
    }
}

/// The English name under which a target language is shown.
pub open spec fn target_display(c: TargetLanguageCode) -> Seq<char> {
    match c {
        TargetLanguageCode::AR => "Arabic"@,
        TargetLanguageCode::BG => "Bulgarian"@,
        TargetLanguageCode::CS => "Czech"@,
        TargetLanguageCode::DA => "Danish"@,
        TargetLanguageCode::DE => "German"@,
        TargetLanguageCode::EL => "Greek"@,
        TargetLanguageCode::EN => "English"@,
        TargetLanguageCode::EnGb => "English (British)"@,
        TargetLanguageCode::EnUs => "English (American)"@,
        TargetLanguageCode::ES => "Spanish"@,
        TargetLanguageCode::ET => "Estonian"@,
        TargetLanguageCode::FI => "Finnish"@,
        TargetLanguageCode::FR => "French"@,
        TargetLanguageCode::HU => "Hungarian"@,
        TargetLanguageCode::ID => "Indonesian"@,
        TargetLanguageCode::IT => "Italian"@,
        TargetLanguageCode::JA => "Japanese"@,
        TargetLanguageCode::KO => "Korean"@,
        TargetLanguageCode::LT => "Lithuanian"@,
        TargetLanguageCode::LV => "Latvian"@,
        TargetLanguageCode::NB => "Norwegian (Bokmål)"@,
        TargetLanguageCode::NL => "Dutch"@,
        TargetLanguageCode::PL => "Polish"@,
        TargetLanguageCode::PT => "Portuguese"@,
        TargetLanguageCode::PtBr => "Portuguese (Brazilian)"@,
        TargetLanguageCode::PtPt => "Portuguese (Other)"@,
        TargetLanguageCode::RO => "Romanian"@,
        TargetLanguageCode::RU => "Russian"@,
        TargetLanguageCode::SK => "Slovak"@,
        TargetLanguageCode::SL => "Slovenian"@,
        TargetLanguageCode::SV => "Swedish"@,
        TargetLanguageCode::TR => "Turkish"@,
        TargetLanguageCode::UK => "Ukrainian"@,
        TargetLanguageCode::ZH => "Chinese (simplified)"@,
    }
}

impl TargetLanguageCode {
    /// Looks up a token, already trimmed and lowercased: a short code such as `de` or an
    /// English name such as `german`.
    pub fn guess_from_str(s: &str) -> (r: Option<TargetLanguageCode>)
        ensures
            r == target_code_of(s@),
    {
        if same_text(s, "ar") || same_text(s, "arabic") {
            Some(TargetLanguageCode::AR)
        } else if same_text(s, "bg") || same_text(s, "bulgarian") {
            Some(TargetLanguageCode::BG)
        } else if same_text(s, "cs") || same_text(s, "czech") {
            Some(TargetLanguageCode::CS)
        } else if same_text(s, "da") || same_text(s, "danish") {
            Some(TargetLanguageCode::DA)
        } else if same_text(s, "de") || same_text(s, "german") {
            Some(TargetLanguageCode::DE)
        } else if same_text(s, "el") || same_text(s, "greek") {
            Some(TargetLanguageCode::EL)
        } else if same_text(s, "en") || same_text(s, "english") {
            Some(TargetLanguageCode::EN)
        } else if same_text(s, "en-gb") {
            Some(TargetLanguageCode::EnGb)
        } else if same_text(s, "en-us") {
            Some(TargetLanguageCode::EnUs)
        } else if same_text(s, "es") || same_text(s, "spanish") {
            Some(TargetLanguageCode::ES)
        } else if same_text(s, "et") || same_text(s, "estonian") {
            Some(TargetLanguageCode::ET)
        } else if same_text(s, "fi") || same_text(s, "finnish") {
            Some(TargetLanguageCode::FI)
        } else if same_text(s, "fr") || same_text(s, "french") {
            Some(TargetLanguageCode::FR)
        } else if same_text(s, "hu") || same_text(s, "hungarian") {
            Some(TargetLanguageCode::HU)
        } else if same_text(s, "id") || same_text(s, "indonesian") {
            Some(TargetLanguageCode::ID)
        } else if same_text(s, "it") || same_text(s, "italian") {
            Some(TargetLanguageCode::IT)
        } else if same_text(s, "jp") || same_text(s, "ja") || same_text(s, "japanese") {
            Some(TargetLanguageCode::JA)
        } else if same_text(s, "ko") || same_text(s, "korean") {
            Some(TargetLanguageCode::KO)
        } else if same_text(s, "lt") || same_text(s, "lithuanian") {
            Some(TargetLanguageCode::LT)
        } else if same_text(s, "lv") || same_text(s, "latvian") {
            Some(TargetLanguageCode::LV)
        } else if same_text(s, "nb") || same_text(s, "norwegian") {
            Some(TargetLanguageCode::NB)
        } else if same_text(s, "nl") || same_text(s, "dutch") {
            Some(TargetLanguageCode::NL)
        } else if same_text(s, "pl") || same_text(s, "polish") {
            Some(TargetLanguageCode::PL)
        } else if same_text(s, "pt") || same_text(s, "portuguese") {
            Some(TargetLanguageCode::PT)
        } else if same_text(s, "pt-br") {
            Some(TargetLanguageCode::PtBr)
        } else if same_text(s, "pt-pt") {
            Some(TargetLanguageCode::PtPt)
        } else if same_text(s, "ro") || same_text(s, "romanian") {
            Some(TargetLanguageCode::RO)
        } else if same_text(s, "ru") || same_text(s, "russian") {
            Some(TargetLanguageCode::RU)
        } else if same_text(s, "sk") || same_text(s, "slovak") {
            Some(TargetLanguageCode::SK)
        } else if same_text(s, "sl") || same_text(s, "slovenian") {
            Some(TargetLanguageCode::SL)
        } else if same_text(s, "sv") || same_text(s, "swedish") {
            Some(TargetLanguageCode::SV)
        } else if same_text(s, "tr") || same_text(s, "turkish") {
            Some(TargetLanguageCode::TR)
        } else if same_text(s, "uk") || same_text(s, "ukrainian") {
            Some(TargetLanguageCode::UK)
        } else if same_text(s, "zh") || same_text(s, "chinese") {
            Some(TargetLanguageCode::ZH)
        } else {
            None
        }
    }

    /// The code sent to and received from the translation service, such as `DE`.
    pub fn wire_code(&self) -> (r: &'static str)
        ensures
            r@ == target_wire(*self),
    {
        match self {
            TargetLanguageCode::AR => "AR",
            TargetLanguageCode::BG => "BG",
            TargetLanguageCode::CS => "CS",
            TargetLanguageCode::DA => "DA",
            TargetLanguageCode::DE => "DE",
            TargetLanguageCode::EL => "EL",
            TargetLanguageCode::EN => "EN",
            TargetLanguageCode::EnGb => "EN-GB",
            TargetLanguageCode::EnUs => "EN-US",
            TargetLanguageCode::ES => "ES",
            TargetLanguageCode::ET => "ET",
            TargetLanguageCode::FI => "FI",
            TargetLanguageCode::FR => "FR",
            TargetLanguageCode::HU => "HU",
            TargetLanguageCode::ID => "ID",
            TargetLanguageCode::IT => "IT",
            TargetLanguageCode::JA => "JA",
            TargetLanguageCode::KO => "KO",
            TargetLanguageCode::LT => "LT",
            TargetLanguageCode::LV => "LV",
            TargetLanguageCode::NB => "NB",
            TargetLanguageCode::NL => "NL",
            TargetLanguageCode::PL => "PL",
            TargetLanguageCode::PT => "PT",
            TargetLanguageCode::PtBr => "PT-BR",
            TargetLanguageCode::PtPt => "PT-PT",
            TargetLanguageCode::RO => "RO",
            TargetLanguageCode::RU => "RU",
            TargetLanguageCode::SK => "SK",
            TargetLanguageCode::SL => "SL",
            TargetLanguageCode::SV => "SV",
            TargetLanguageCode::TR => "TR",
            TargetLanguageCode::UK => "UK",
            TargetLanguageCode::ZH => "ZH",
        }
    }

    /// The English name of the language, such as `German`.
    pub fn display_name(&self) -> (r: &'static str)
        ensures
            r@ == target_display(*self),
    {
        match self {
            TargetLanguageCode::AR => "Arabic",
            TargetLanguageCode::BG => "Bulgarian",
            TargetLanguageCode::CS => "Czech",
            TargetLanguageCode::DA => "Danish",
            TargetLanguageCode::DE => "German",
            TargetLanguageCode::EL => "Greek",
            TargetLanguageCode::EN => "English",
            TargetLanguageCode::EnGb => "English (British)",
            TargetLanguageCode::EnUs => "English (American)",
            TargetLanguageCode::ES => "Spanish",
            TargetLanguageCode::ET => "Estonian",
            TargetLanguageCode::FI => "Finnish",
            TargetLanguageCode::FR => "French",
            TargetLanguageCode::HU => "Hungarian",
            TargetLanguageCode::ID => "Indonesian",
            TargetLanguageCode::IT => "Italian",
            TargetLanguageCode::JA => "Japanese",
            TargetLanguageCode::KO => "Korean",
            TargetLanguageCode::LT => "Lithuanian",
            TargetLanguageCode::LV => "Latvian",
            TargetLanguageCode::NB => "Norwegian (Bokmål)",
            TargetLanguageCode::NL => "Dutch",
            TargetLanguageCode::PL => "Polish",
            TargetLanguageCode::PT => "Portuguese",
            TargetLanguageCode::PtBr => "Portuguese (Brazilian)",
            TargetLanguageCode::PtPt => "Portuguese (Other)",
            TargetLanguageCode::RO => "Romanian",
            TargetLanguageCode::RU => "Russian",
            TargetLanguageCode::SK => "Slovak",
            TargetLanguageCode::SL => "Slovenian",
            TargetLanguageCode::SV => "Swedish",
            TargetLanguageCode::TR => "Turkish",
            TargetLanguageCode::UK => "Ukrainian",
            TargetLanguageCode::ZH => "Chinese (simplified)",
        }
    }

}

} // verus!
