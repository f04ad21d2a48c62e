use company_reporting::editor_commands::{
    blank_line, parse_editor_command, parse_line_command, parse_roubles, parse_usize, split_words, EditorCommand,
    LineCommand,
};
use company_reporting::keys::{BalanceKeys, ParsedLineInfo};
use company_reporting::lines_editor::LinesEditor;
use company_reporting::money::Money;

fn chars(s: &str) -> Vec<char> {
    s.chars().collect()
}

#[test]
fn words_of_a_command() {
    let w = split_words("  i\t 12  ");
    assert_eq!(w, vec![chars("i"), chars("12")]);
    assert!(split_words("").is_empty());
    assert!(split_words(" \u{3000} ").is_empty());
    assert_eq!(split_words("a"), vec![chars("a")]);
}

#[test]
fn usize_numbers() {
    assert_eq!(parse_usize(&chars("0")), Some(0));
    assert_eq!(parse_usize(&chars("+17")), Some(17));
    assert_eq!(parse_usize(&chars("-1")), None);
    assert_eq!(parse_usize(&chars("-0")), None);
    assert_eq!(parse_usize(&chars("")), None);
    assert_eq!(parse_usize(&chars("+")), None);
    assert_eq!(parse_usize(&chars("1x")), None);
    assert_eq!(parse_usize(&chars(&usize::MAX.to_string())), Some(usize::MAX));
    assert_eq!(parse_usize(&chars("99999999999999999999999")), None);
}

#[test]
fn editor_commands() {
    assert_eq!(parse_editor_command(""), EditorCommand::Finish);
    assert_eq!(parse_editor_command("p"), EditorCommand::Print);
    assert_eq!(parse_editor_command("p 3"), EditorCommand::Print);
    assert_eq!(parse_editor_command("i 0"), EditorCommand::Insert(0));
    assert_eq!(parse_editor_command("e  5"), EditorCommand::Edit(5));
    assert_eq!(parse_editor_command("d 2"), EditorCommand::Delete(2));
    assert_eq!(parse_editor_command("d"), EditorCommand::Wrong);
    assert_eq!(parse_editor_command("d 1 2"), EditorCommand::Wrong);
    assert_eq!(parse_editor_command("d x"), EditorCommand::Wrong);
    assert_eq!(parse_editor_command("x 1"), EditorCommand::Wrong);
    assert_eq!(parse_editor_command("   "), EditorCommand::Wrong);
}

#[test]
fn line_commands() {
    assert_eq!(parse_line_command(""), LineCommand::Finish);
    assert_eq!(parse_line_command("v"), LineCommand::Value);
    assert_eq!(parse_line_command("k"), LineCommand::Key);
    assert_eq!(parse_line_command("vk"), LineCommand::Wrong);
    assert_eq!(parse_roubles("-1500"), Some(Money::from_roubles(-1500)));
    assert_eq!(parse_roubles("+7"), Some(Money::from_roubles(7)));
    assert_eq!(parse_roubles("1 500"), None);
    assert_eq!(parse_roubles(""), None);
}

#[test]
fn blank_lines() {
    let l: ParsedLineInfo<BalanceKeys> = blank_line();
    assert_eq!(l.key, BalanceKeys::Other);
    assert_eq!(l.value, Money::zero());
    assert_eq!(l.original_line, "");
}

fn line(roubles: i64) -> ParsedLineInfo<BalanceKeys> {
    ParsedLineInfo { key: BalanceKeys::Cash, value: Money::from_roubles(roubles), original_line: String::new() }
}

fn values(e: &LinesEditor<BalanceKeys>) -> Vec<i64> {
    e.result_lines().iter().map(|l| l.value.in_roubles()).collect()
}

#[test]
fn editing_lines_by_number() {
    let mut e = LinesEditor::new(vec![line(1), line(2)]);
    assert!(e.insert_line(2, line(3)));
    assert_eq!(values(&e), vec![1, 2, 3]);
    assert!(!e.insert_line(4, line(9)));
    assert!(e.insert_line(0, line(0)));
    assert_eq!(values(&e), vec![0, 1, 2, 3]);
    assert!(e.replace_line(1, line(10)));
    assert!(!e.replace_line(4, line(9)));
    assert_eq!(values(&e), vec![0, 10, 2, 3]);
    assert!(e.remove_line(3));
    assert!(!e.remove_line(3));
    assert_eq!(values(&e), vec![0, 10, 2]);
    assert_eq!(e.len(), 3);
    assert_eq!(e.line(1).value.in_roubles(), 10);
}
