use company_reporting::keys::{BalanceKeys, GenericKeys, ParsedLineInfo};
use company_reporting::keys_combo::{ComboKey, KeysComboBox};
use company_reporting::line_dialog::{DialogKey, LineEditDialog};
use company_reporting::lines_editor::{EditDecision, Field};
use company_reporting::money::Money;

fn options() -> Vec<(BalanceKeys, String)> {
    BalanceKeys::variants().into_iter().map(|k| (k, k.key_name().to_owned())).collect()
}

#[test]
fn combo_starts_on_the_selection() {
    let c = KeysComboBox::new_with_selection(options(), BalanceKeys::Cash);
    assert_eq!(c.selected_item(), BalanceKeys::Cash);
    assert!(!c.is_open());
    let (shown, highlighted) = c.shown_options();
    assert_eq!(shown.len(), 17);
    assert_eq!(highlighted, Some(7));
    let c = KeysComboBox::new(options());
    assert_eq!(c.selected_item(), BalanceKeys::FixedAssets);
    assert_eq!(c.shown_options().1, Some(0));
}

#[test]
fn typing_narrows_the_keys() {
    let mut c = KeysComboBox::new_with_selection(options(), BalanceKeys::Cash);
    c.handle_key(ComboKey::Char('t'));
    c.handle_key(ComboKey::Char('O'));
    c.handle_key(ComboKey::Char('t'));
    assert!(c.is_open());
    let (shown, highlighted) = c.shown_options();
    assert_eq!(
        *shown,
        vec![
            BalanceKeys::TotalNonCurrentAssets,
            BalanceKeys::TotalCurrentAssets,
            BalanceKeys::TotalEquity,
            BalanceKeys::TotalLongTermLiabilities,
            BalanceKeys::TotalCurrentLiabilities,
        ]
    );
    assert_eq!(highlighted, Some(0));
    c.handle_key(ComboKey::Up);
    assert_eq!(c.shown_options().1, Some(4));
    c.handle_key(ComboKey::Down);
    assert_eq!(c.shown_options().1, Some(0));
    c.handle_key(ComboKey::Down);
    c.handle_key(ComboKey::Enter);
    assert!(!c.is_open());
    assert_eq!(c.selected_item(), BalanceKeys::TotalCurrentAssets);
    assert!(c.input_text().is_empty());
}

#[test]
fn nothing_matches() {
    let mut c = KeysComboBox::new(options());
    c.handle_key(ComboKey::Char('#'));
    let (shown, highlighted) = c.shown_options();
    assert!(shown.is_empty());
    assert_eq!(highlighted, None);
    c.handle_key(ComboKey::Enter);
    assert_eq!(c.selected_item(), BalanceKeys::FixedAssets);
    assert_eq!(*c.input_text(), vec!['#']);
    c.handle_key(ComboKey::Backspace);
    assert_eq!(c.shown_options().0.len(), 17);
    c.handle_key(ComboKey::Esc);
    assert!(!c.is_open());
}

#[test]
fn dialog_edits_a_line() {
    let line = ParsedLineInfo { key: BalanceKeys::Loans, value: Money::from_roubles(-250), original_line: "Займы".to_owned() };
    let mut d = LineEditDialog::new_edit(options(), line);
    assert!(!d.is_insert());
    assert_eq!(d.value(), "-250");
    assert_eq!(d.raw(), "Займы");
    assert_eq!(d.active(), Field::Key);
    assert!(matches!(d.handle_key(DialogKey::Tab), EditDecision::Continue));
    assert_eq!(d.active(), Field::Value);
    assert_eq!(d.value_cursor(), 0);
    d.handle_key(DialogKey::End);
    d.handle_key(DialogKey::Char('x'));
    d.handle_key(DialogKey::Char('0'));
    assert_eq!(d.value(), "-2500");
    assert_eq!(d.value_cursor(), 5);
    d.handle_key(DialogKey::Backspace);
    d.handle_key(DialogKey::Backspace);
    assert_eq!(d.value(), "-25");
    d.handle_key(DialogKey::BackTab);
    d.handle_key(DialogKey::BackTab);
    assert_eq!(d.active(), Field::Raw);
    d.handle_key(DialogKey::End);
    d.handle_key(DialogKey::Char('!'));
    match d.handle_key(DialogKey::Enter) {
        EditDecision::CommitOk(l) => {
            assert_eq!(l.key, BalanceKeys::Loans);
            assert_eq!(l.value.in_roubles(), -25);
            assert_eq!(l.original_line, "Займы!");
        }
        _ => panic!("the line was not committed"),
    }
    assert!(matches!(d.handle_key(DialogKey::Esc), EditDecision::Cancel));
}

#[test]
fn dialog_keeps_going_on_a_bad_value() {
    let mut d = LineEditDialog::<BalanceKeys>::new_insert(options());
    assert!(d.is_insert());
    assert_eq!(d.value(), "0");
    d.handle_key(DialogKey::Tab);
    d.handle_key(DialogKey::Char('-'));
    d.handle_key(DialogKey::Char('-'));
    // The cursor starts at the beginning of the field.
    assert_eq!(d.value(), "--0");
    assert_eq!(d.value_cursor(), 2);
    assert!(d.build_line().is_err());
    assert!(matches!(d.handle_key(DialogKey::Enter), EditDecision::Continue));
}

#[test]
fn dialog_enter_closes_an_open_key_list_first() {
    let mut d = LineEditDialog::<BalanceKeys>::new_insert(options());
    d.handle_key(DialogKey::Char('c'));
    d.handle_key(DialogKey::Char('a'));
    d.handle_key(DialogKey::Char('s'));
    assert!(d.key().is_open());
    assert!(matches!(d.handle_key(DialogKey::Enter), EditDecision::Continue));
    assert!(!d.key().is_open());
    assert_eq!(d.key().selected_item(), BalanceKeys::Cash);
    match d.handle_key(DialogKey::Enter) {
        EditDecision::CommitOk(l) => {
            assert_eq!(l.key, BalanceKeys::Cash);
            assert_eq!(l.value, Money::zero());
            assert_eq!(l.original_line, "");
        }
        _ => panic!("the line was not committed"),
    }
}

#[test]
fn dialog_fields_edit_at_the_cursor() {
    let line = ParsedLineInfo { key: BalanceKeys::Cash, value: Money::from_roubles(150), original_line: "Касса".to_owned() };
    let mut d = LineEditDialog::new_edit(options(), line);
    d.handle_key(DialogKey::Tab);
    d.handle_key(DialogKey::Right);
    d.handle_key(DialogKey::Delete);
    assert_eq!(d.value(), "10");
    assert_eq!(d.value_cursor(), 1);
    d.handle_key(DialogKey::Char('2'));
    assert_eq!(d.value(), "120");
    d.handle_key(DialogKey::Left);
    d.handle_key(DialogKey::Left);
    d.handle_key(DialogKey::Left);
    assert_eq!(d.value_cursor(), 0);
    d.handle_key(DialogKey::Backspace);
    assert_eq!(d.value(), "120");
    d.handle_key(DialogKey::Char('-'));
    d.handle_key(DialogKey::Char('a'));
    assert_eq!(d.value(), "-120");
    d.handle_key(DialogKey::End);
    d.handle_key(DialogKey::Right);
    d.handle_key(DialogKey::Delete);
    assert_eq!(d.value(), "-120");
    assert_eq!(d.value_cursor(), 4);
    d.handle_key(DialogKey::Home);
    assert_eq!(d.value_cursor(), 0);
    d.handle_key(DialogKey::Tab);
    assert_eq!(d.active(), Field::Raw);
    assert_eq!(d.raw_cursor(), 0);
    d.handle_key(DialogKey::Char('['));
    d.handle_key(DialogKey::End);
    d.handle_key(DialogKey::Char(']'));
    assert_eq!(d.raw(), "[Касса]");
    assert_eq!(d.raw_cursor(), 7);
    match d.handle_key(DialogKey::Enter) {
        EditDecision::CommitOk(l) => {
            assert_eq!(l.value.in_roubles(), -120);
            assert_eq!(l.original_line, "[Касса]");
        }
        _ => panic!("the line was not committed"),
    }
}

#[test]
fn backspace_undoes_a_typed_character() {
    let mut d = LineEditDialog::<BalanceKeys>::new_insert(options());
    d.handle_key(DialogKey::BackTab);
    assert_eq!(d.active(), Field::Raw);
    d.handle_key(DialogKey::Char('a'));
    d.handle_key(DialogKey::Char('c'));
    d.handle_key(DialogKey::Left);
    let (text, cursor) = (d.raw(), d.raw_cursor());
    d.handle_key(DialogKey::Char('b'));
    assert_eq!(d.raw(), "abc");
    d.handle_key(DialogKey::Backspace);
    assert_eq!((d.raw(), d.raw_cursor()), (text, cursor));
}
