use git_release_name::hex::to_hex8;
use git_release_name::text::{decimal, split};
use git_release_name::word::{lookup, Word};
use git_release_name::{Case, ParseCaseError, ParseShaError, Sha, ShaPart};

#[test]
fn it_can_parse_into_a_sha() {
    assert_eq!("a".parse::<Sha>().unwrap().0, 10);
}

#[test]
fn it_can_detect_non_hex_chars_when_parsing() {
    assert!("z".parse::<Sha>().is_err());
}

#[test]
fn it_can_identify_indexes_for_each_type() {
    let sha = Sha(0xffffffff);
    assert_eq!(sha.adverb(), 4095);
    assert_eq!(sha.adjective(), 255);
    assert_eq!(sha.noun(), 4095);

    let sha = Sha(0xfff00000);
    assert_eq!(sha.adverb(), 4095);
    assert_eq!(sha.adjective(), 0);
    assert_eq!(sha.noun(), 0);

    let sha = Sha(0x00ff000);
    assert_eq!(sha.adverb(), 0);
    assert_eq!(sha.adjective(), 255);
    assert_eq!(sha.noun(), 0);

    let sha = Sha(0x00000fff);
    assert_eq!(sha.adverb(), 0);
    assert_eq!(sha.adjective(), 0);
    assert_eq!(sha.noun(), 4095);
}

#[test]
fn fields_put_back_together_give_the_key() {
    for v in [0u32, 1, 0x0a00a00a, 0x12345678, 0xdeadbeef, 0xffffffff] {
        let sha = Sha(v);
        assert!(sha.adverb() <= 4095 && sha.adjective() <= 255 && sha.noun() <= 4095);
        let back = ((sha.adverb() as u32) << 20) | ((sha.adjective() as u32) << 12) | sha.noun() as u32;
        assert_eq!(back, v);
    }
    let sha = Sha(0x0a00a00a);
    assert_eq!((sha.adverb(), sha.adjective(), sha.noun()), (160, 10, 10));
}

#[test]
fn sha_parsing_is_strict() {
    assert_eq!(Sha::parse("ffffffff"), Ok(Sha(0xffffffff)));
    assert_eq!(Sha::parse("DeadBeef"), Ok(Sha(0xdeadbeef)));
    assert_eq!(Sha::parse("100000000"), Err(ParseShaError::NonHexadecimalCharacters));
    assert_eq!(Sha::parse(""), Err(ParseShaError::NonHexadecimalCharacters));
    assert_eq!(Sha::parse("+a"), Err(ParseShaError::NonHexadecimalCharacters));
}

#[test]
fn identifiers_are_truncated_and_padded() {
    assert_eq!(Sha::from_identifier(""), Ok(Sha(0)));
    assert_eq!(Sha::from_identifier("abc"), Ok(Sha(0xabc)));
    assert_eq!(Sha::from_identifier("00000abcffff"), Ok(Sha(0xabc)));
    assert_eq!(Sha::from_identifier("12345678zz"), Ok(Sha(0x12345678)));
    assert_eq!(Sha::from_identifier("1234567z"), Err(ParseShaError::NonHexadecimalCharacters));
}

#[test]
fn sha_part_it_can_parse_into_a_word() {
    assert_eq!("a".parse::<ShaPart>().unwrap().hash(), 10);
}

#[test]
fn sha_part_it_can_detect_non_hex_chars() {
    assert!("z".parse::<ShaPart>().is_err());
}

#[test]
fn sha_part_keeps_its_digits() {
    let part = ShaPart::parse("0fF").unwrap();
    assert_eq!(part.sha, "0fF");
    assert_eq!(part.hash(), 255);
    assert!(ShaPart::parse("").is_err());
}

#[test]
fn main_it_can_parse_into_a_word() {
    let word = "a".parse::<Word>().unwrap();
    assert_eq!(word.hash, 10);
}

#[test]
fn main_it_can_detect_non_hex_chars() {
    let result = "z".parse::<Word>();
    assert!(result.is_err());
}

fn adverbs() -> Vec<String> {
    let mut words: Vec<String> = (0..4096).map(|i| format!("adverb{}", i)).collect();
    words[10] = "proximally".to_string();
    words
}

#[test]
fn it_can_look_up_from_a_dictionary() {
    let word = lookup(Word::parse("a").unwrap(), &adverbs());
    assert_eq!(word.word, Some("proximally".to_string()));
}

#[test]
fn it_will_overflow_the_dictionary_index() {
    let word = lookup("a".parse().unwrap(), &["hello".to_string()]);
    assert_eq!(word.word, Some("hello".to_string()));
}

#[test]
fn it_can_format_the_word() {
    let word = Word::parse("a").unwrap();
    assert_eq!("", word.to_string());
    let word = lookup(word, &adverbs());
    assert_eq!("proximally", word.to_string());
}

#[test]
fn an_empty_list_picks_no_word() {
    let word = lookup(Word::parse("a").unwrap(), &[]);
    assert_eq!(word.word, None);
    assert_eq!(word.sha, "a");
    assert_eq!(word.hash, 10);
}

#[test]
fn case_str_can_be_parsed_to_a_format() {
    assert_eq!(Case::Snake, "snake".parse::<Case>().unwrap());
    assert_eq!(Case::Kebab, "kebab".parse::<Case>().unwrap());
    assert_eq!(Case::Camel, "camel".parse::<Case>().unwrap());
    assert_eq!(Case::Pascal, "pascal".parse::<Case>().unwrap());
    assert_eq!(Case::Title, "title".parse::<Case>().unwrap());
    assert_eq!(Case::Sentence, "sentence".parse::<Case>().unwrap());
    assert_eq!(Case::Lower, "lower".parse::<Case>().unwrap());
    assert_eq!(Case::Upper, "upper".parse::<Case>().unwrap());
    assert!("alsdkfj".parse::<Case>().is_err());
}

#[test]
fn main_str_can_be_parsed_to_a_format() {
    assert_eq!(Case::Snake, "snake".parse::<Case>().unwrap());
    assert_eq!(Case::Kebab, "kebab".parse::<Case>().unwrap());
    assert_eq!(Case::Camel, "camel".parse::<Case>().unwrap());
    assert_eq!(Case::Pascal, "pascal".parse::<Case>().unwrap());
    assert_eq!(Case::Title, "title".parse::<Case>().unwrap());
    assert_eq!(Case::Sentence, "sentence".parse::<Case>().unwrap());
    assert_eq!(Case::Lower, "lower".parse::<Case>().unwrap());
    assert_eq!(Case::Upper, "upper".parse::<Case>().unwrap());
    assert!("alsdkfj".parse::<Case>().is_err());
}

#[test]
fn case_tokens_are_exact() {
    assert_eq!(Case::parse("Snake"), Err(ParseCaseError::InvalidFormat));
    assert_eq!(Case::parse("snake "), Err(ParseCaseError::InvalidFormat));
    assert_eq!(Case::parse(""), Err(ParseCaseError::InvalidFormat));
}

#[test]
fn keys_are_written_with_eight_lower_case_digits() {
    assert_eq!(to_hex8(0), "00000000");
    assert_eq!(to_hex8(0xabc), "00000abc");
    assert_eq!(to_hex8(0xDEADBEEF), "deadbeef");
    assert_eq!(to_hex8(u32::MAX), "ffffffff");
}

#[test]
fn numbers_are_written_in_decimal() {
    assert_eq!(decimal(0), "0");
    assert_eq!(decimal(7), "7");
    assert_eq!(decimal(3230), "3230");
    assert_eq!(decimal(usize::MAX), usize::MAX.to_string());
}

#[test]
fn strings_are_split_at_every_separator() {
    assert_eq!(split("abc,123", ','), vec!["abc", "123"]);
    assert_eq!(split("", ','), vec![""]);
    assert_eq!(split(",a,,", ','), vec!["", "a", "", ""]);
}
