use git_release_name::dictionary::{has_unique_elements, lookup_adjective, lookup_adverb, lookup_noun};
use git_release_name::phrase::Phrase;
use git_release_name::{list, lookup, Case, Dictionary, Entry, Kind, ParsePhraseError, ParseShaError};

fn filled(prefix: &str, len: usize, known: &[(usize, &str)]) -> Vec<String> {
    let mut words: Vec<String> = (0..len).map(|i| format!("{}{}", prefix, i)).collect();
    for (index, word) in known {
        words[*index] = word.to_string();
    }
    words
}

/// Word lists of the usual sizes, with the words that the lookups below expect in place.
fn dictionary() -> Dictionary {
    let adverbs = filled(
        "adverb",
        4096,
        &[
            (0, "ambitiously"),
            (1, "exaggeratedly"),
            (10, "proximally"),
            (23, "issuably"),
            (160, "immeasurably"),
            (4095, "disconcertingly"),
        ],
    );
    let adjectives = filled(
        "adjective",
        256,
        &[(0, "timeless"), (1, "courant"), (2, "twinning"), (10, "endways"), (255, "gleeful")],
    );
    let nouns = filled(
        "noun",
        4096,
        &[
            (0, "kisses"),
            (1, "ombre"),
            (10, "borings"),
            (115, "verso"),
            (564, "gantlines"),
            (2748, "gemot"),
            (4095, "tipsters"),
        ],
    );
    Dictionary::new(adverbs, adjectives, nouns)
}

fn make_simple_phrase(dict: &Dictionary) -> Phrase {
    lookup(dict, "0a00a00a").expect("Invalid phrase")
}

fn strings(words: &[&str]) -> Vec<String> {
    words.iter().map(|w| w.to_string()).collect()
}

#[test]
fn lib_unique_function_detects_non_unique() {
    assert!(!has_unique_elements(&strings(&["1", "1"])));
}

#[test]
fn lib_adverbs_are_unique() {
    assert!(has_unique_elements(&dictionary().adverbs));
}

#[test]
fn lib_adjectives_are_unique() {
    assert!(has_unique_elements(&dictionary().adjectives));
}

#[test]
fn lib_nouns_are_unique() {
    assert!(has_unique_elements(&dictionary().nouns));
}

#[test]
fn mod_unique_function_detects_non_unique() {
    assert!(!has_unique_elements(&strings(&["1", "1"])));
}

#[test]
fn mod_adverbs_are_unique() {
    assert!(has_unique_elements(&dictionary().adverbs));
}

#[test]
fn mod_adjectives_are_unique() {
    assert!(has_unique_elements(&dictionary().adjectives));
}

#[test]
fn mod_nouns_are_unique() {
    assert!(has_unique_elements(&dictionary().nouns));
}

#[test]
fn listing() {
    let dict = dictionary();
    assert_eq!(list(&dict, Kind::Noun).len(), 4096);
    assert_eq!(
        list(&dict, Kind::Noun)[0],
        Entry {
            word: String::from("kisses"),
            index: 0,
            kind: Kind::Noun
        }
    )
}

#[test]
fn it_can_look_up_from_an_adverb() {
    let dict = dictionary();
    let word = lookup_adverb(&dict, "1".parse().unwrap());
    assert_eq!(word, Ok("exaggeratedly".to_string()));
    let word = lookup_adverb(&dict, "ffff".parse().unwrap());
    assert_eq!(word, Ok("disconcertingly".to_string()));
}

#[test]
fn it_can_look_up_an_adjective() {
    let dict = dictionary();
    let word = lookup_adjective(&dict, "1".parse().unwrap());
    assert_eq!(word, Ok("courant".to_string()));
    let word = lookup_adjective(&dict, "ffff".parse().unwrap());
    assert_eq!(word, Ok("gleeful".to_string()));
}

#[test]
fn it_can_look_up_a_noun() {
    let dict = dictionary();
    let word = lookup_noun(&dict, "1".parse().unwrap());
    assert_eq!(word, Ok("ombre".to_string()));
    let word = lookup_noun(&dict, "ffff".parse().unwrap());
    assert_eq!(word, Ok("tipsters".to_string()));
}

#[test]
fn phrase_a_phrase_can_be_generated_from_a_str() {
    let phrase = make_simple_phrase(&dictionary());
    assert_eq!("immeasurably endways borings", phrase.to_string());
}

#[test]
fn it_pads_the_string() {
    let dict = dictionary();
    let unpadded = lookup(&dict, "abc").expect("Invalid phrase");
    let padded = lookup(&dict, "00000abc").expect("Invalid phrase");
    assert_eq!(padded, unpadded);
}

#[test]
fn it_only_respects_first_eight() {
    let dict = dictionary();
    let overflow = lookup(&dict, "00000abcffff").expect("Invalid phrase");
    let underflow = lookup(&dict, "abc").expect("Invalid phrase");
    assert_eq!(overflow, underflow);
}

#[test]
fn phrase_a_phrase_can_be_formatted_as_snake_case() {
    let phrase = make_simple_phrase(&dictionary()).with_case(Case::Snake);
    assert_eq!("immeasurably_endways_borings", phrase.to_string());
}

#[test]
fn phrase_a_phrase_can_be_formatted_as_kebab_case() {
    let phrase = make_simple_phrase(&dictionary()).with_case(Case::Kebab);
    assert_eq!("immeasurably-endways-borings", phrase.to_string());
}

#[test]
fn phrase_a_phrase_can_be_formatted_as_camel_case() {
    let phrase = make_simple_phrase(&dictionary()).with_case(Case::Camel);
    assert_eq!("immeasurablyEndwaysBorings", phrase.to_string());
}

#[test]
fn phrase_a_phrase_can_be_formatted_as_pascal_case() {
    let phrase = make_simple_phrase(&dictionary()).with_case(Case::Pascal);
    assert_eq!("ImmeasurablyEndwaysBorings", phrase.to_string());
}

#[test]
fn phrase_a_phrase_can_be_formatted_as_title_case() {
    let phrase = make_simple_phrase(&dictionary()).with_case(Case::Title);
    assert_eq!("Immeasurably Endways Borings", phrase.to_string());
}

#[test]
fn phrase_a_phrase_can_be_formatted_as_capital_case() {
    let phrase = make_simple_phrase(&dictionary()).with_case(Case::Sentence);
    assert_eq!("Immeasurably endways borings", phrase.to_string());
}

#[test]
fn phrase_a_phrase_can_be_formatted_as_upper_case() {
    let phrase = make_simple_phrase(&dictionary()).with_case(Case::Upper);
    assert_eq!("IMMEASURABLY ENDWAYS BORINGS", phrase.to_string());
}

#[test]
fn phrase_a_phrase_can_be_formatted_as_lower_case() {
    let phrase = make_simple_phrase(&dictionary()).with_case(Case::Lower);
    assert_eq!("immeasurably endways borings", phrase.to_string());
}

#[test]
fn main_a_phrase_can_be_generated_from_a_str() {
    let phrase = make_simple_phrase(&dictionary());
    assert_eq!("immeasurably endways borings", phrase.to_string());
}

#[test]
fn main_a_phrase_can_be_formatted_as_snake_case() {
    let phrase = make_simple_phrase(&dictionary()).with_case(Case::Snake);
    assert_eq!("immeasurably_endways_borings", phrase.to_string());
}

#[test]
fn main_a_phrase_can_be_formatted_as_kebab_case() {
    let phrase = make_simple_phrase(&dictionary()).with_case(Case::Kebab);
    assert_eq!("immeasurably-endways-borings", phrase.to_string());
}

#[test]
fn main_a_phrase_can_be_formatted_as_camel_case() {
    let phrase = make_simple_phrase(&dictionary()).with_case(Case::Camel);
    assert_eq!("immeasurablyEndwaysBorings", phrase.to_string());
}

#[test]
fn main_a_phrase_can_be_formatted_as_pascal_case() {
    let phrase = make_simple_phrase(&dictionary()).with_case(Case::Pascal);
    assert_eq!("ImmeasurablyEndwaysBorings", phrase.to_string());
}

#[test]
fn main_a_phrase_can_be_formatted_as_title_case() {
    let phrase = make_simple_phrase(&dictionary()).with_case(Case::Title);
    assert_eq!("Immeasurably Endways Borings", phrase.to_string());
}

#[test]
fn main_a_phrase_can_be_formatted_as_capital_case() {
    let phrase = make_simple_phrase(&dictionary()).with_case(Case::Sentence);
    assert_eq!("Immeasurably endways borings", phrase.to_string());
}

#[test]
fn main_a_phrase_can_be_formatted_as_upper_case() {
    let phrase = make_simple_phrase(&dictionary()).with_case(Case::Upper);
    assert_eq!("IMMEASURABLY ENDWAYS BORINGS", phrase.to_string());
}

#[test]
fn main_a_phrase_can_be_formatted_as_lower_case() {
    let phrase = make_simple_phrase(&dictionary()).with_case(Case::Lower);
    assert_eq!("immeasurably endways borings", phrase.to_string());
}

#[test]
fn phrase_accessors_give_words_and_case() {
    let phrase = lookup(&dictionary(), "1234").unwrap();
    assert_eq!(phrase.adverb(), "ambitiously");
    assert_eq!(phrase.adjective(), "courant");
    assert_eq!(phrase.noun(), "gantlines");
    assert_eq!(phrase.case(), Case::Lower);
    assert_eq!(phrase.with_case(Case::Upper).case(), Case::Upper);
}

#[test]
fn a_long_identifier_gives_the_expected_words() {
    let dict = dictionary();
    let phrase = lookup(&dict, "017020733fecef58761259d5d307c83876f9b428").unwrap();
    assert_eq!(phrase.to_string(), "issuably twinning verso");
    assert_eq!(phrase.with_case(Case::Camel).to_string(), "issuablyTwinningVerso");
}

#[test]
fn lookups_are_deterministic() {
    let dict = dictionary();
    for s in ["0", "abc", "deadbeef", "ffffffff", "0123456789abcdef"] {
        assert_eq!(lookup(&dict, s), lookup(&dict, s));
    }
}

#[test]
fn short_identifiers_are_padded_with_zeros() {
    let dict = dictionary();
    assert_eq!(lookup(&dict, ""), lookup(&dict, "00000000"));
    assert_eq!(lookup(&dict, "1"), lookup(&dict, "00000001"));
    assert_eq!(lookup(&dict, "1234567"), lookup(&dict, "01234567"));
}

#[test]
fn only_the_first_eight_characters_count() {
    let dict = dictionary();
    assert_eq!(lookup(&dict, "0a00a00a"), lookup(&dict, "0a00a00azz"));
    assert_eq!(lookup(&dict, "FFFFFFFF"), lookup(&dict, "ffffffff0"));
}

#[test]
fn non_hex_identifiers_are_rejected() {
    let dict = dictionary();
    let invalid = Err(ParsePhraseError::Sha(ParseShaError::NonHexadecimalCharacters));
    assert_eq!(lookup(&dict, "zz"), invalid);
    assert_eq!(lookup(&dict, "+abc"), invalid);
    assert_eq!(lookup(&dict, "0000000g"), invalid);
    assert_eq!(lookup(&dict, "é"), invalid);
}

#[test]
fn an_empty_word_list_is_reported() {
    let dict = Dictionary::new(strings(&["a"]), Vec::new(), strings(&["c"]));
    assert_eq!(lookup(&dict, "abc"), Err(ParsePhraseError::EmptyDictionary));
    let invalid = Err(ParsePhraseError::Sha(ParseShaError::NonHexadecimalCharacters));
    assert_eq!(lookup(&dict, "xyz"), invalid);
}

#[test]
fn small_word_lists_wrap_around() {
    let dict = Dictionary::new(strings(&["a0", "a1"]), strings(&["b0", "b1", "b2"]), strings(&["c0"]));
    let phrase = lookup(&dict, "00301002").unwrap();
    assert_eq!(phrase.adverb(), "a1");
    assert_eq!(phrase.adjective(), "b1");
    assert_eq!(phrase.noun(), "c0");
}

#[test]
fn single_word_lists_render_every_case() {
    let dict = Dictionary::new(strings(&["immeasurably"]), strings(&["endways"]), strings(&["borings"]));
    let render = |case: Case| lookup(&dict, "0a00a00a").unwrap().with_case(case).to_string();
    assert_eq!(render(Case::Lower), "immeasurably endways borings");
    assert_eq!(render(Case::Snake), "immeasurably_endways_borings");
    assert_eq!(render(Case::Kebab), "immeasurably-endways-borings");
    assert_eq!(render(Case::Camel), "immeasurablyEndwaysBorings");
    assert_eq!(render(Case::Pascal), "ImmeasurablyEndwaysBorings");
    assert_eq!(render(Case::Title), "Immeasurably Endways Borings");
    assert_eq!(render(Case::Sentence), "Immeasurably endways borings");
    assert_eq!(render(Case::Upper), "IMMEASURABLY ENDWAYS BORINGS");
}

#[test]
fn lower_and_upper_are_stable_when_applied_again() {
    let dict = Dictionary::new(strings(&["quickly"]), strings(&["brown"]), strings(&["fox"]));
    let lower = lookup(&dict, "1").unwrap().with_case(Case::Lower).to_string();
    let upper = lookup(&dict, "1").unwrap().with_case(Case::Upper).to_string();
    let upper_words = Dictionary::new(strings(&["QUICKLY"]), strings(&["BROWN"]), strings(&["FOX"]));
    let again = lookup(&upper_words, "1").unwrap().with_case(Case::Upper).to_string();
    assert_eq!(again, upper);
    let again = lookup(&dict, "1").unwrap().with_case(Case::Lower).to_string();
    assert_eq!(again, lower);
}

#[test]
fn dictionary_well_formedness_is_checked() {
    assert!(dictionary().is_well_formed());
    let repeated = Dictionary::new(strings(&["a", "a"]), strings(&["b"]), strings(&["c"]));
    assert!(!repeated.is_well_formed());
    let empty = Dictionary::new(strings(&["a"]), strings(&["b"]), Vec::new());
    assert!(!empty.is_well_formed());
}
