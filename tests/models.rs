use poke_api::errors::ErrorStatus;
use poke_api::models::{
    count_locale_entries, CatalogEntry, DescriptionEntry, Pokemon, Translation, TranslationContent,
    TranslationType,
};

fn entry(text: &str, language: &str) -> DescriptionEntry {
    DescriptionEntry { flavor_text: text.to_string(), language: language.to_string() }
}

fn catalog(entries: Vec<DescriptionEntry>, habitat: Option<&str>, legendary: bool) -> CatalogEntry {
    CatalogEntry {
        name: "mewtwo".to_string(),
        flavor_text_entries: entries,
        habitat: habitat.map(|h| h.to_string()),
        is_legendary: legendary,
    }
}

fn fields(pairs: &[(&str, &str)]) -> Vec<(String, String)> {
    pairs.iter().map(|(k, v)| (k.to_string(), v.to_string())).collect()
}

#[test]
fn decoding_without_locale_description_fails() {
    let c = catalog(vec![entry("Bonjour", "fr"), entry("Hallo", "de")], Some("rare"), true);
    let r = Pokemon::from_catalog(c);
    assert!(matches!(r, Err(e) if e.status == ErrorStatus::DecodingError));
}

#[test]
fn decoding_empty_entries_fails() {
    let r = Pokemon::from_catalog(catalog(vec![], Some("rare"), true));
    assert!(matches!(r, Err(e) if e.status == ErrorStatus::DecodingError));
}

#[test]
fn decoding_without_habitat_fails() {
    let r = Pokemon::from_catalog(catalog(vec![entry("Text", "en")], None, true));
    assert!(matches!(r, Err(e) if e.status == ErrorStatus::DecodingError));
}

#[test]
fn decoding_picks_a_locale_description_and_sanitizes_it() {
    let texts = ["It was created\nby a scientist.", "Its DNA is\u{c}almost\\fthe same."];
    for _ in 0..20 {
        let c = catalog(
            vec![entry("Texte", "fr"), entry(texts[0], "en"), entry(texts[1], "en")],
            Some("rare"),
            true,
        );
        let p = Pokemon::from_catalog(c).unwrap();
        assert!(
            p.description_entries == "It was created by a scientist."
                || p.description_entries == "Its DNA is almost the same."
        );
        assert!(p.description_entries.chars().all(|c| c.is_ascii()));
        assert!(p.description_entries.chars().all(|c| !c.is_whitespace() || c == ' '));
        assert_eq!(p.name, "mewtwo");
        assert_eq!(p.habitat, "rare");
        assert!(p.is_legendary);
        assert!(p.translation.is_none());
    }
}

#[test]
fn decoding_with_choice_is_deterministic() {
    let c = catalog(
        vec![entry("first", "en"), entry("autre", "fr"), entry("second \u{2014} one", "en")],
        Some("cave"),
        false,
    );
    let p = Pokemon::from_catalog_choice(c, 1).unwrap();
    assert_eq!(p.description_entries, "second  one");
    assert_eq!(p.habitat, "cave");
}

#[test]
fn decoding_with_choice_out_of_range_fails() {
    let c = catalog(vec![entry("first", "en"), entry("autre", "fr")], Some("cave"), false);
    let r = Pokemon::from_catalog_choice(c, 1);
    assert!(matches!(r, Err(e) if e.status == ErrorStatus::DecodingError));
}

#[test]
fn count_locale_entries_counts_en_only() {
    let v = vec![entry("a", "en"), entry("b", "fr"), entry("c", "en"), entry("d", "EN")];
    assert_eq!(count_locale_entries(&v), 2);
}

#[test]
fn translation_type_from_names() {
    assert_eq!(TranslationType::from("shakespeare"), Some(TranslationType::Shakespeare));
    assert_eq!(TranslationType::from("yoda"), Some(TranslationType::Yoda));
    assert_eq!(TranslationType::from("Yoda"), None);
    assert_eq!(TranslationType::from(""), None);
}

#[test]
fn translation_from_fields_reads_text_and_kind() {
    let t = Translation::from_fields(&fields(&[
        ("text", "Hello"),
        ("translated", "Hello, hmm."),
        ("translation", "yoda"),
    ]))
    .unwrap();
    assert_eq!(t.contents.translated, "Hello, hmm.");
    assert_eq!(t.contents.translation_type, Some(TranslationType::Yoda));
}

#[test]
fn translation_unknown_or_missing_kind_is_none() {
    let t = Translation::from_fields(&fields(&[("translated", "x"), ("translation", "pirate")])).unwrap();
    assert_eq!(t.contents.translation_type, None);
    let t = Translation::from_fields(&fields(&[("translated", "x")])).unwrap();
    assert_eq!(t.contents.translation_type, None);
}

#[test]
fn translation_without_translated_fails() {
    let r = Translation::from_fields(&fields(&[("text", "x"), ("translation", "yoda")]));
    assert!(matches!(r, Err(e) if e.status == ErrorStatus::DecodingError));
}

#[test]
fn translation_later_duplicate_key_wins() {
    let t = Translation::from_fields(&fields(&[("translated", "old"), ("translated", "new")])).unwrap();
    assert_eq!(t.contents.translated, "new");
}

#[test]
fn apply_translation_sets_text_and_kind() {
    let mut p = Pokemon {
        name: "snorlax".to_string(),
        description_entries: "Sleeps.".to_string(),
        habitat: "mountain".to_string(),
        is_legendary: false,
        translation: None,
    };
    p.apply_translation(TranslationContent {
        translated: "Sleepeth.".to_string(),
        translation_type: Some(TranslationType::Shakespeare),
    });
    assert_eq!(p.description_entries, "Sleepeth.");
    assert_eq!(p.translation, Some(TranslationType::Shakespeare));
    assert_eq!(p.name, "snorlax");
}
