use company_reporting::period::{Period, PeriodParseError};

#[test]
fn build_uniform_empty() {
    assert_eq!(Period::build_uniform(vec![]), vec![]);
}

#[test]
fn build_uniform_full_only_kept_as_is() {
    let periods = vec![Period::full(2020), Period::full(2021)];
    assert_eq!(Period::build_uniform(periods.clone()), periods);

    let single = vec![Period::full(2020)];
    assert_eq!(Period::build_uniform(single.clone()), single);
}

#[test]
fn build_uniform_halves_only_kept_as_is() {
    let periods = vec![Period::first_half(2020), Period::second_half(2020)];
    assert_eq!(Period::build_uniform(periods.clone()), periods);
}

#[test]
fn build_uniform_full_split_into_halves_when_mixed() {
    let periods = vec![Period::full(2020), Period::first_half(2021)];
    let expected = vec![
        Period::first_half(2020),
        Period::second_half(2020),
        Period::first_half(2021),
    ];
    assert_eq!(Period::build_uniform(periods), expected);
}

#[test]
fn build_uniform_mixed_full_and_halves() {
    let periods = vec![
        Period::full(2020),
        Period::first_half(2020),
        Period::second_half(2021),
    ];
    let expected = vec![
        Period::first_half(2020),
        Period::second_half(2020),
        Period::second_half(2021),
    ];
    assert_eq!(Period::build_uniform(periods), expected);
}

#[test]
fn build_uniform_dedups_duplicates() {
    let periods = vec![
        Period::full(2020),
        Period::first_half(2020),
        Period::full(2020),
    ];
    let expected = vec![Period::first_half(2020), Period::second_half(2020)];
    assert_eq!(Period::build_uniform(periods), expected);
}

#[test]
fn build_uniform_result_is_uniform_again() {
    let periods = vec![Period::second_half(2022), Period::full(2021), Period::first_half(2022)];
    let once = Period::build_uniform(periods);
    let twice = Period::build_uniform(once.clone());
    assert_eq!(once, twice);
    assert_eq!(
        once,
        vec![
            Period::first_half(2021),
            Period::second_half(2021),
            Period::first_half(2022),
            Period::second_half(2022),
        ]
    );
}

#[test]
fn make_parts_for_substraction_first_half() {
    let half = Period::first_half(2021);
    assert_eq!(half.make_parts_for_substraction(), (half, None));
}

#[test]
fn make_parts_for_substraction_full() {
    let full = Period::full(2021);
    assert_eq!(full.make_parts_for_substraction(), (full, None));
}

#[test]
fn make_parts_for_substraction_second_half() {
    let half = Period::second_half(2021);
    let expected = (Period::full(2021), Some(Period::first_half(2021)));
    assert_eq!(half.make_parts_for_substraction(), expected);
}

#[test]
fn short_string_names() {
    assert_eq!(Period::first_half(2023).short_string(), "2023H1");
    assert_eq!(Period::second_half(2023).short_string(), "2023H2");
    assert_eq!(Period::full(2024).short_string(), "2024FULL");
    assert_eq!(Period::full(0).short_string(), "0FULL");
}

#[test]
fn short_string_reads_back() {
    for p in [
        Period::first_half(2023),
        Period::second_half(1999),
        Period::full(2024),
        Period::full(0),
        Period::first_half(i32::MAX),
    ] {
        assert_eq!(Period::from_short_string(&p.short_string()), Ok(p));
    }
}

#[test]
fn from_short_string_errors() {
    assert_eq!(Period::from_short_string("2023H3"), Err(PeriodParseError::NotParsable));
    assert_eq!(Period::from_short_string("2023"), Err(PeriodParseError::NotParsable));
    assert_eq!(Period::from_short_string("H1"), Err(PeriodParseError::InvalidYear));
    assert_eq!(Period::from_short_string(""), Err(PeriodParseError::NotParsable));
    assert_eq!(
        Period::from_short_string("99999999999FULL"),
        Err(PeriodParseError::InvalidYear)
    );
    assert_eq!(Period::from_short_string("2023full"), Err(PeriodParseError::NotParsable));
}

#[test]
fn periods_order() {
    assert!(Period::first_half(2020).precedes(&Period::second_half(2020)));
    assert!(Period::second_half(2020).precedes(&Period::full(2020)));
    assert!(Period::full(2020).precedes(&Period::first_half(2021)));
    assert!(!Period::full(2020).precedes(&Period::full(2020)));
    assert!(!Period::full(2021).precedes(&Period::first_half(2021)));
}
