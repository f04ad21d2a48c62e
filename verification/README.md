# company_reporting

Reads the balance and income reports of companies from recognised PDF pages,
checks them and shows their figures by period.

- `src/` is the verified library: money amounts, periods, report keys, the
  balance and income reports with their invariants, the classifier that turns
  recognised lines into keyed amounts, the parser that checks section totals
  and the balance equation, the dictionaries of line titles, and the state of
  the editors and of the report viewer.
- `app/` is the program around it: the command line, the SQLite database,
  page recognition with `pdftoppm` and `tesseract`, and the terminal screens.
- `tests/` runs the library on concrete reports.
