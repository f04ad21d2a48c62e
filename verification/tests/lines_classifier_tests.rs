use company_reporting::keys::GenericKeys;
use company_reporting::keys_dict::KeysDict;
use company_reporting::lines_classifier::{
    get_line_token, split_line_to_tokens, split_page_text, LinesClassifier, MapKeyClasifier, MoneyParseError,
};
use company_reporting::money::MoneyMultiplier;
use company_reporting::report_error::ParseError;

#[derive(Debug, Clone, Copy, PartialEq, Eq)]
enum TestKeys {
    OtherDefault,
    Foo,
    Bar,
}

impl GenericKeys for TestKeys {
    fn default_key() -> Self {
        TestKeys::OtherDefault
    }

    fn same_key(&self, other: &Self) -> bool {
        *self == *other
    }

    fn key_name(&self) -> &'static str {
        match self {
            TestKeys::OtherDefault => "OtherDefault",
            TestKeys::Foo => "Foo",
            TestKeys::Bar => "Bar",
        }
    }

    fn key_from_name(s: &str) -> Option<Self> {
        match s {
            "OtherDefault" => Some(TestKeys::OtherDefault),
            "Foo" => Some(TestKeys::Foo),
            "Bar" => Some(TestKeys::Bar),
            _ => None,
        }
    }

    fn variants() -> Vec<Self> {
        vec![TestKeys::OtherDefault, TestKeys::Foo, TestKeys::Bar]
    }
}

#[test]
fn test_parse_money() {
    let empty_k = MapKeyClasifier::<TestKeys>::new(KeysDict::new());
    let classifier_k = LinesClassifier::new(MoneyMultiplier::Thousands, &empty_k);
    assert_eq!(classifier_k.parse_money("1").unwrap().in_roubles(), 1000);
    assert_eq!(
        classifier_k.parse_money("2 123").unwrap().in_roubles(),
        2123000
    );
    assert_eq!(classifier_k.parse_money("(1)").unwrap().in_roubles(), -1000);
    assert_eq!(
        classifier_k.parse_money("(2 123)").unwrap().in_roubles(),
        -2123000
    );
    assert_eq!(classifier_k.parse_money("-1").unwrap().in_roubles(), -1000);
    assert_eq!(classifier_k.parse_money("-").unwrap().in_roubles(), 0);

    // OCR garbage .
    assert_eq!(
        classifier_k.parse_money("2.123").unwrap().in_roubles(),
        2123000
    );

    assert!(classifier_k.parse_money("").is_err());
    assert!(classifier_k.parse_money("asdf").is_err());
    assert!(classifier_k.parse_money("1k").is_err());
    assert!(classifier_k.parse_money("k1").is_err());

    let empty_m = MapKeyClasifier::<TestKeys>::new(KeysDict::new());
    let classifier_m = LinesClassifier::new(MoneyMultiplier::Millions, &empty_m);
    assert_eq!(
        classifier_m.parse_money("  9 ").unwrap().in_roubles(),
        9000000
    );
    assert_eq!(
        classifier_m.parse_money("(3489)").unwrap().in_roubles(),
        -3489000000
    );
}

#[test]
fn test_classify_lines() {
    let mut test_mapping = KeysDict::<TestKeys>::new();
    test_mapping.insert("фу".to_owned(), TestKeys::Foo);
    test_mapping.insert("фоо".to_owned(), TestKeys::Foo);
    test_mapping.insert("бар".to_owned(), TestKeys::Bar);
    let map_classifier = MapKeyClasifier::new(test_mapping);
    let classifier_k = LinesClassifier::new(MoneyMultiplier::Thousands, &map_classifier);

    let parsed = classifier_k
        .classify_lines(&[
            " фу    1    12    34".to_owned(),
            " фу         89     -".to_owned(),
            " бар        -  (12)  ".to_owned(),
            "unused 1  2   3   5".to_owned(),
        ])
        .unwrap();
    assert_eq!(parsed.len(), 4);
    assert_eq!(parsed[0].key, TestKeys::Foo);
    assert_eq!(parsed[0].value.in_roubles(), 12000);

    assert_eq!(parsed[1].key, TestKeys::Foo);
    assert_eq!(parsed[1].value.in_roubles(), 89000);

    assert_eq!(parsed[2].key, TestKeys::Bar);
    assert_eq!(parsed[2].value.in_roubles(), 0);

    assert_eq!(parsed[3].key, TestKeys::OtherDefault);
    assert_eq!(parsed[3].value.in_roubles(), 3000);
}

#[test]
fn classify_lines_skips_lines_that_are_not_report_lines() {
    let mut mapping = KeysDict::<TestKeys>::new();
    mapping.insert("фу".to_owned(), TestKeys::Foo);
    let map_classifier = MapKeyClasifier::new(mapping);
    let classifier = LinesClassifier::new(MoneyMultiplier::Thousands, &map_classifier);
    let parsed = classifier
        .classify_lines(&[
            "".to_owned(),
            "Заголовок отчёта".to_owned(),
            "фу  1".to_owned(),
            "фу  1  2  3  4  5".to_owned(),
            "фу  нет  числа".to_owned(),
            "Фу  10  20".to_owned(),
        ])
        .unwrap();
    assert_eq!(parsed.len(), 1);
    assert_eq!(parsed[0].key, TestKeys::Foo);
    assert_eq!(parsed[0].value.in_roubles(), 10000);
    assert_eq!(parsed[0].original_line, "Фу  10  20");
}

#[test]
fn classify_lines_refuses_an_amount_that_does_not_fit() {
    let map_classifier = MapKeyClasifier::<TestKeys>::new(KeysDict::new());
    let classifier = LinesClassifier::new(MoneyMultiplier::Millions, &map_classifier);
    let result = classifier.classify_lines(&["фу  9223372036854775  1".to_owned()]);
    assert_eq!(result.unwrap_err(), ParseError::Overflow);
    assert_eq!(
        classifier.parse_money("9223372036854775"),
        Err(MoneyParseError::Overflow)
    );
    assert_eq!(classifier.parse_money("x"), Err(MoneyParseError::NotAnAmount));
}

#[test]
fn split_line_into_columns() {
    let tokens = split_line_to_tokens(" фу    1    12    34");
    assert_eq!(tokens, vec![" фу", "1", "12", "34"]);
    let tokens = split_line_to_tokens("a b  c   d");
    assert_eq!(tokens, vec!["a b", "c", " d"]);
    assert!(split_line_to_tokens("").is_empty());
    assert!(split_line_to_tokens("    ").is_empty());
}

#[test]
fn line_token_is_lowercase_russian_title() {
    let tokens = vec!["  Основные Средства (прим. 5)".to_owned()];
    assert_eq!(get_line_token(&tokens), "основные средства  прим");
    let tokens = vec!["ИТОГО".to_owned(), "12".to_owned()];
    assert_eq!(get_line_token(&tokens), "итого");
    let tokens = vec!["Total 1".to_owned()];
    assert_eq!(get_line_token(&tokens), "");
}

#[test]
fn page_text_splits_on_newlines() {
    assert_eq!(split_page_text("a\nb\n\nc"), vec!["a", "b", "", "c"]);
    assert_eq!(split_page_text("a\n"), vec!["a", ""]);
    assert_eq!(split_page_text(""), vec![""]);
}
