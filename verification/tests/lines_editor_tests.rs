use company_reporting::keys::{BalanceKeys, ParsedLineInfo};
use company_reporting::lines_editor::{
    accepts_value_char, build_line, trim_text, EditResult, Field, LineError, LinesEditor, NavigationAction,
    NavigationKey,
};
use company_reporting::money::Money;

fn line(key: BalanceKeys, roubles: i64) -> ParsedLineInfo<BalanceKeys> {
    ParsedLineInfo { key, value: Money::from_roubles(roubles), original_line: format!("{}", roubles) }
}

fn values(e: &LinesEditor<BalanceKeys>) -> Vec<i64> {
    e.result_lines().iter().map(|l| l.value.in_roubles()).collect()
}

#[test]
fn fields_cycle() {
    assert_eq!(Field::Key.next(), Field::Value);
    assert_eq!(Field::Value.next(), Field::Raw);
    assert_eq!(Field::Raw.next(), Field::Key);
    assert_eq!(Field::Key.prev(), Field::Raw);
    assert_eq!(Field::Raw.prev(), Field::Value);
    assert_eq!(Field::Value.prev(), Field::Key);
    assert_eq!(Field::Value.label(), "Value (roubles)");
    assert_eq!(Field::Raw.label(), "Raw line");
    assert_eq!(Field::max_label_len(), 15);
    assert_eq!(Field::all(), vec![Field::Key, Field::Value, Field::Raw]);
}

#[test]
fn value_field_takes_digits_and_signs() {
    assert!(accepts_value_char('7'));
    assert!(accepts_value_char('-'));
    assert!(accepts_value_char('+'));
    assert!(!accepts_value_char('a'));
    assert!(!accepts_value_char(' '));
}

#[test]
fn dialog_builds_a_line() {
    let l = build_line(" -1500 ", BalanceKeys::Cash, "  Денежные средства  ").unwrap();
    assert_eq!(l.key, BalanceKeys::Cash);
    assert_eq!(l.value.in_roubles(), -1500);
    assert_eq!(l.original_line, "Денежные средства");
    assert_eq!(build_line("12a", BalanceKeys::Cash, "").unwrap_err(), LineError::BadValue);
    assert_eq!(build_line("", BalanceKeys::Cash, "").unwrap_err(), LineError::BadValue);
    assert_eq!(build_line("99999999999999999999", BalanceKeys::Cash, "").unwrap_err(), LineError::BadValue);
    assert_eq!(trim_text("\t x y \n"), "x y");
}

#[test]
fn navigation_moves_round_the_lines() {
    let mut e = LinesEditor::new(vec![line(BalanceKeys::Cash, 1), line(BalanceKeys::Loans, 2), line(BalanceKeys::Other, 3)]);
    assert_eq!(e.selected(), Some(0));
    assert_eq!(e.handle_navigation_key(NavigationKey::Up), NavigationAction::Ignore);
    assert_eq!(e.selected(), Some(2));
    e.handle_navigation_key(NavigationKey::Down);
    assert_eq!(e.selected(), Some(0));
    e.handle_navigation_key(NavigationKey::Down);
    assert_eq!(e.handle_navigation_key(NavigationKey::Edit), NavigationAction::OpenEditDialog(1));
    assert_eq!(e.handle_navigation_key(NavigationKey::Insert), NavigationAction::OpenInsertDialog);
    assert_eq!(
        e.handle_navigation_key(NavigationKey::Enter),
        NavigationAction::Finish(EditResult::SaveAndClose)
    );
    assert_eq!(
        e.handle_navigation_key(NavigationKey::Quit),
        NavigationAction::Finish(EditResult::CloseWithoutSaving)
    );
}

#[test]
fn deleting_keeps_the_selection_in_range() {
    let mut e = LinesEditor::new(vec![line(BalanceKeys::Cash, 1), line(BalanceKeys::Loans, 2)]);
    e.handle_navigation_key(NavigationKey::Down);
    assert_eq!(e.handle_navigation_key(NavigationKey::Delete), NavigationAction::LineDeleted);
    assert_eq!(values(&e), vec![1]);
    assert_eq!(e.selected(), Some(0));
    assert_eq!(e.handle_navigation_key(NavigationKey::Delete), NavigationAction::LineDeleted);
    assert_eq!(values(&e), Vec::<i64>::new());
    assert_eq!(e.selected(), None);
    assert_eq!(e.handle_navigation_key(NavigationKey::Delete), NavigationAction::Ignore);
    assert_eq!(e.handle_navigation_key(NavigationKey::Edit), NavigationAction::Ignore);
    assert_eq!(e.handle_navigation_key(NavigationKey::Up), NavigationAction::Ignore);
}

#[test]
fn committing_inserts_before_or_replaces_the_selected_line() {
    let mut e = LinesEditor::new(vec![]);
    e.commit(line(BalanceKeys::Cash, 10), true);
    assert_eq!(values(&e), vec![10]);
    e.commit(line(BalanceKeys::Cash, 5), true);
    assert_eq!(values(&e), vec![5, 10]);
    e.handle_navigation_key(NavigationKey::Down);
    e.commit(line(BalanceKeys::Loans, 7), false);
    assert_eq!(values(&e), vec![5, 7]);
    assert_eq!(e.result_lines()[1].key, BalanceKeys::Loans);
    let lines = e.into_lines();
    assert_eq!(lines.len(), 2);
}
