//! Selecting the language of a text among a list of candidate languages.
use vstd::prelude::*;

use crate::text::str_eq;

verus! {

/// Errors of the language selection.
#[derive(Debug, Clone, PartialEq, Eq)]
pub enum LanguageError {
    /// The language with this ISO 639-3 code is not supported.
    Unsupported(String),
}

impl LanguageError {
    /// The text of the error.
    pub fn message(&self) -> (m: String)
        ensures
            match self {
                LanguageError::Unsupported(code) => m@ == "the language '"@ + code@ + "' is unsupported"@,
            },
    {
        match self {
            LanguageError::Unsupported(code) => {
                let mut m = String::from_str("the language '");
                m.append(code.as_str());
                m.append("' is unsupported");
                m
            },
        }
    }
}

/// A language, by its ISO 639-3 code.
#[derive(Debug, Clone, PartialEq, Eq)]
pub struct Language(pub String);

impl Language {
    /// The language with the given ISO 639-3 code.
    pub fn new(code: String) -> (l: Language)
        ensures
            l.0 == code,
    {
        Language(code)
    }
}

/// A request to select the language of `text` among `languages`.
#[derive(Debug, Clone, PartialEq, Eq)]
pub struct SelectLanguageRequest {
    pub text: String,
    pub languages: Vec<Language>,
}

impl SelectLanguageRequest {
    /// A request to select the language of `text` among `languages`.
    pub fn new(text: String, languages: Vec<Language>) -> (r: SelectLanguageRequest)
        ensures
            r.text == text,
            r.languages == languages,
    {
        SelectLanguageRequest { text, languages }
    }
}

/// The ISO 639-3 codes of the languages that the engine knows.
pub open spec fn is_known_code(code: Seq<char>) -> bool {
    code == "afr"@
        || code == "ara"@
        || code == "aze"@
        || code == "bel"@
        || code == "ben"@
        || code == "bos"@
        || code == "bul"@
        || code == "cat"@
        || code == "ces"@
        || code == "cym"@
        || code == "dan"@
        || code == "deu"@
        || code == "ell"@
        || code == "eng"@
        || code == "epo"@
        || code == "est"@
        || code == "eus"@
        || code == "fas"@
        || code == "fin"@
        || code == "fra"@
        || code == "gle"@
        || code == "guj"@
        || code == "heb"@
        || code == "hin"@
        || code == "hrv"@
        || code == "hun"@
        || code == "hye"@
        || code == "ind"@
        || code == "isl"@
        || code == "ita"@
        || code == "jpn"@
        || code == "kat"@
        || code == "kaz"@
        || code == "kor"@
        || code == "lat"@
        || code == "lav"@
        || code == "lit"@
        || code == "lug"@
        || code == "mar"@
        || code == "mkd"@
        || code == "mon"@
        || code == "mri"@
        || code == "msa"@
        || code == "nld"@
        || code == "nno"@
        || code == "nob"@
        || code == "pan"@
        || code == "pol"@
        || code == "por"@
        || code == "ron"@
        || code == "rus"@
        || code == "slk"@
        || code == "slv"@
        || code == "sna"@
        || code == "som"@
        || code == "sot"@
        || code == "spa"@
        || code == "sqi"@
        || code == "srp"@
        || code == "swa"@
        || code == "swe"@
        || code == "tam"@
        || code == "tel"@
        || code == "tgl"@
        || code == "tha"@
        || code == "tsn"@
        || code == "tso"@
        || code == "tur"@
        || code == "ukr"@
        || code == "urd"@
        || code == "vie"@
        || code == "xho"@
        || code == "yor"@
        || code == "zho"@
        || code == "zul"@
}

/// Is `code` the ISO 639-3 code of a language that the engine knows?
pub fn known_code(code: &str) -> (r: bool)
    ensures
        r == is_known_code(code@),
{
    str_eq(code, "afr")
        || str_eq(code, "ara")
        || str_eq(code, "aze")
        || str_eq(code, "bel")
        || str_eq(code, "ben")
        || str_eq(code, "bos")
        || str_eq(code, "bul")
        || str_eq(code, "cat")
        || str_eq(code, "ces")
        || str_eq(code, "cym")
        || str_eq(code, "dan")
        || str_eq(code, "deu")
        || str_eq(code, "ell")
        || str_eq(code, "eng")
        || str_eq(code, "epo")
        || str_eq(code, "est")
        || str_eq(code, "eus")
        || str_eq(code, "fas")
        || str_eq(code, "fin")
        || str_eq(code, "fra")
        || str_eq(code, "gle")
        || str_eq(code, "guj")
        || str_eq(code, "heb")
        || str_eq(code, "hin")
        || str_eq(code, "hrv")
        || str_eq(code, "hun")
        || str_eq(code, "hye")
        || str_eq(code, "ind")
        || str_eq(code, "isl")
        || str_eq(code, "ita")
        || str_eq(code, "jpn")
        || str_eq(code, "kat")
        || str_eq(code, "kaz")
        || str_eq(code, "kor")
        || str_eq(code, "lat")
        || str_eq(code, "lav")
        || str_eq(code, "lit")
        || str_eq(code, "lug")
        || str_eq(code, "mar")
        || str_eq(code, "mkd")
        || str_eq(code, "mon")
        || str_eq(code, "mri")
        || str_eq(code, "msa")
        || str_eq(code, "nld")
        || str_eq(code, "nno")
        || str_eq(code, "nob")
        || str_eq(code, "pan")
        || str_eq(code, "pol")
        || str_eq(code, "por")
        || str_eq(code, "ron")
        || str_eq(code, "rus")
        || str_eq(code, "slk")
        || str_eq(code, "slv")
        || str_eq(code, "sna")
        || str_eq(code, "som")
        || str_eq(code, "sot")
        || str_eq(code, "spa")
        || str_eq(code, "sqi")
        || str_eq(code, "srp")
        || str_eq(code, "swa")
        || str_eq(code, "swe")
        || str_eq(code, "tam")
        || str_eq(code, "tel")
        || str_eq(code, "tgl")
        || str_eq(code, "tha")
        || str_eq(code, "tsn")
        || str_eq(code, "tso")
        || str_eq(code, "tur")
        || str_eq(code, "ukr")
        || str_eq(code, "urd")
        || str_eq(code, "vie")
        || str_eq(code, "xho")
        || str_eq(code, "yor")
        || str_eq(code, "zho")
        || str_eq(code, "zul")
}

/// The codes of the candidate languages of a request, in order, where the engine knows them all;
/// otherwise the first candidate it does not know.
///
/// This is the validation that precedes the detection itself; the detection runs a statistical
/// language model configured with a floating point threshold and happens outside this crate.
pub fn candidate_codes(languages: &Vec<Language>) -> (r: Result<Vec<String>, LanguageError>)
    ensures
        r matches Ok(codes) ==> {
            &&& codes.len() == languages.len()
            &&& forall|i: int| 0 <= i < codes.len() ==> #[trigger] codes@[i]@ == languages@[i].0@
            &&& forall|i: int| 0 <= i < codes.len() ==> is_known_code(#[trigger] languages@[i].0@)
        },
        r matches Err(LanguageError::Unsupported(c)) ==> exists|i: int|
            0 <= i < languages.len() && #[trigger] languages@[i].0@ == c@ && !is_known_code(c@) && (
            forall|j: int| 0 <= j < i ==> is_known_code(#[trigger] languages@[j].0@)),
{
    let mut codes: Vec<String> = Vec::new();
    let mut i: usize = 0;
    while i < languages.len()
        invariant
            i <= languages.len(),
            codes.len() == i,
            forall|k: int| 0 <= k < i ==> #[trigger] codes@[k]@ == languages@[k].0@,
            forall|k: int| 0 <= k < i ==> is_known_code(#[trigger] languages@[k].0@),
        decreases languages.len() - i,
    {
        let code = &languages[i].0;
        if !known_code(code.as_str()) {
            return Err(LanguageError::Unsupported(code.clone()));
        }
        codes.push(code.clone());
        i = i + 1;
    }
    Ok(codes)
}

/// The language that the detector found, as the engine answers it.
pub fn selected_language(detected_code: Option<String>) -> (r: Option<Language>)
    ensures
        match (detected_code, r) {
            (Some(c), Some(l)) => l.0 == c,
            (None, None) => true,
            _ => false,
        },
{
    match detected_code {
        Some(code) => Some(Language(code)),
        None => None,
    }
}


/// Every language that the detector can tell apart is known by its ISO 639-3 code: Afrikaans,
/// Arabic, Azerbaijani, Belarusian, Bengali, Bosnian, Bulgarian, Catalan, Czech, Welsh, Danish,
/// German, Greek, English, Esperanto, Estonian, Basque, Persian, Finnish, French, Irish,
/// Gujarati, Hebrew, Hindi, Croatian, Hungarian, Armenian, Indonesian, Icelandic, Italian,
/// Japanese, Georgian, Kazakh, Korean, Latin, Latvian, Lithuanian, Ganda, Marathi, Macedonian,
/// Mongolian, Maori, Malay, Dutch, Nynorsk, Bokmal, Punjabi, Polish, Portuguese, Romanian,
/// Russian, Slovak, Slovene, Shona, Somali, Sotho, Spanish, Albanian, Serbian, Swahili,
/// Swedish, Tamil, Telugu, Tagalog, Thai, Tswana, Tsonga, Turkish, Ukrainian, Urdu, Vietnamese,
/// Xhosa, Yoruba, Chinese and Zulu.
pub proof fn law_detectable_languages_are_known()
    ensures
        is_known_code("afr"@),
        is_known_code("ara"@),
        is_known_code("aze"@),
        is_known_code("bel"@),
        is_known_code("ben"@),
        is_known_code("bos"@),
        is_known_code("bul"@),
        is_known_code("cat"@),
        is_known_code("ces"@),
        is_known_code("cym"@),
        is_known_code("dan"@),
        is_known_code("deu"@),
        is_known_code("ell"@),
        is_known_code("eng"@),
        is_known_code("epo"@),
        is_known_code("est"@),
        is_known_code("eus"@),
        is_known_code("fas"@),
        is_known_code("fin"@),
        is_known_code("fra"@),
        is_known_code("gle"@),
        is_known_code("guj"@),
        is_known_code("heb"@),
        is_known_code("hin"@),
        is_known_code("hrv"@),
        is_known_code("hun"@),
        is_known_code("hye"@),
        is_known_code("ind"@),
        is_known_code("isl"@),
        is_known_code("ita"@),
        is_known_code("jpn"@),
        is_known_code("kat"@),
        is_known_code("kaz"@),
        is_known_code("kor"@),
        is_known_code("lat"@),
        is_known_code("lav"@),
        is_known_code("lit"@),
        is_known_code("lug"@),
        is_known_code("mar"@),
        is_known_code("mkd"@),
        is_known_code("mon"@),
        is_known_code("mri"@),
        is_known_code("msa"@),
        is_known_code("nld"@),
        is_known_code("nno"@),
        is_known_code("nob"@),
        is_known_code("pan"@),
        is_known_code("pol"@),
        is_known_code("por"@),
        is_known_code("ron"@),
        is_known_code("rus"@),
        is_known_code("slk"@),
        is_known_code("slv"@),
        is_known_code("sna"@),
        is_known_code("som"@),
        is_known_code("sot"@),
        is_known_code("spa"@),
        is_known_code("sqi"@),
        is_known_code("srp"@),
        is_known_code("swa"@),
        is_known_code("swe"@),
        is_known_code("tam"@),
        is_known_code("tel"@),
        is_known_code("tgl"@),
        is_known_code("tha"@),
        is_known_code("tsn"@),
        is_known_code("tso"@),
        is_known_code("tur"@),
        is_known_code("ukr"@),
        is_known_code("urd"@),
        is_known_code("vie"@),
        is_known_code("xho"@),
        is_known_code("yor"@),
        is_known_code("zho"@),
        is_known_code("zul"@),
{
}

} // verus!
