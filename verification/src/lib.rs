//! Company financial reports: money amounts, reporting periods, balance and
//! income reports, the parser that turns recognised report lines into them,
//! the dictionaries of line titles, and the decisions of the commands, the
//! line editors and the report viewer.

pub mod money;
pub mod text;
pub mod period;
pub mod keys;
pub mod report_error;
pub mod balance_report;
pub mod income_report;
pub mod keys_dict;
pub mod lines_classifier;
pub mod text_parser;
pub mod key_sums;
pub mod company;
pub mod reports_dict;
pub mod commands;
pub mod report_table;
pub mod lines_editor;
pub mod editor_commands;
pub mod keys_combo;
pub mod line_dialog;
