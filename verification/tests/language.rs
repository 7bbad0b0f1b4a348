use lingua::LanguageDetectorBuilder;
use pharia_kernel::language::{
    candidate_codes, known_code, selected_language, Language, LanguageError,
    SelectLanguageRequest,
};

/// The language that lingua detects in `text` among the languages with the given ISO 639-3
/// codes, at the minimum relative distance the engine uses.
fn detect(text: &str, codes: &[String]) -> Option<String> {
    let languages: Vec<lingua::Language> = codes
        .iter()
        .map(|code| {
            lingua::Language::all()
                .into_iter()
                .find(|l| l.iso_code_639_3().to_string() == *code)
                .expect("language model is compiled in")
        })
        .collect();
    let detector = LanguageDetectorBuilder::from_languages(&languages)
        .with_minimum_relative_distance(0.5)
        .build();
    detector
        .detect_language_of(text)
        .map(|l| l.iso_code_639_3().to_string())
}

fn select_language(request: SelectLanguageRequest) -> Result<Option<Language>, LanguageError> {
    let codes = candidate_codes(&request.languages)?;
    Ok(selected_language(detect(&request.text, &codes)))
}

#[test]
fn language_selected_for_english_text() {
    let text = "A little bit is better than nothing.".to_owned();
    let languages = vec![Language("eng".to_owned()), Language("deu".to_owned())];
    let request = SelectLanguageRequest { text, languages };
    let language = select_language(request).unwrap();

    assert!(language.is_some());
    assert_eq!(language.unwrap(), Language("eng".to_owned()));
}

#[test]
fn language_selected_for_german_text() {
    let text = "Ich spreche Deutsch nur ein bisschen.".to_owned();
    let languages = vec![Language("eng".to_owned()), Language("deu".to_owned())];
    let request = SelectLanguageRequest { text, languages };
    let language = select_language(request).unwrap();

    assert!(language.is_some());
    assert_eq!(language.unwrap(), Language("deu".to_owned()));
}

#[test]
fn no_language_selected_for_french_text() {
    let text = "Parlez-vous français?".to_owned();
    let languages = vec![Language("eng".to_owned()), Language("deu".to_owned())];
    let request = SelectLanguageRequest { text, languages };
    let language = select_language(request).unwrap();
    assert!(language.is_none());
}

#[test]
fn unsupported_language() {
    let text = "A little bit is better than nothing.".to_owned();
    let languages = vec![Language("foo".to_owned()), Language("deu".to_owned())];
    let request = SelectLanguageRequest { text, languages };
    let error = select_language(request).unwrap_err();

    assert_eq!(error, LanguageError::Unsupported("foo".to_owned()));
}

#[test]
fn first_unsupported_code_is_reported() {
    let languages = vec![
        Language::new("deu".to_owned()),
        Language::new("xx".to_owned()),
        Language::new("yy".to_owned()),
    ];
    assert_eq!(
        candidate_codes(&languages),
        Err(LanguageError::Unsupported("xx".to_owned()))
    );
}

#[test]
fn known_codes_are_passed_on_in_order() {
    let languages = vec![
        Language::new("zul".to_owned()),
        Language::new("afr".to_owned()),
        Language::new("eng".to_owned()),
    ];
    assert_eq!(
        candidate_codes(&languages),
        Ok(vec!["zul".to_owned(), "afr".to_owned(), "eng".to_owned()])
    );
    assert!(known_code("jpn"));
    assert!(!known_code("JPN"));
    assert!(!known_code("en"));
}

#[test]
fn detected_code_becomes_the_selected_language() {
    assert_eq!(
        selected_language(Some("fra".to_owned())),
        Some(Language("fra".to_owned()))
    );
    assert_eq!(selected_language(None), None);
}

#[test]
fn unsupported_language_message() {
    assert_eq!(
        LanguageError::Unsupported("foo".to_owned()).message(),
        "the language 'foo' is unsupported"
    );
}
