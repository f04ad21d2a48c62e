use company_reporting::money::{Money, MoneyMultiplier};

#[test]
fn test_display() {
    assert_eq!(Money::zero().to_string(), "0 ₽");

    assert_eq!(Money::from_thousands(2).to_string(), "2 000 ₽");
    assert_eq!(Money::from_thousands(-2).to_string(), "-2 000 ₽");

    assert_eq!(Money::from_thousands(23).to_string(), "23 000 ₽");
    assert_eq!(Money::from_thousands(-23).to_string(), "-23 000 ₽");

    assert_eq!(Money::from_thousands(2345).to_string(), "2 345 000 ₽");
    assert_eq!(Money::from_thousands(-2345).to_string(), "-2 345 000 ₽");

    assert_eq!(
        Money::from_thousands(23456789).to_string(),
        "23 456 789 000 ₽"
    );
    assert_eq!(
        Money::from_thousands(-23456789).to_string(),
        "-23 456 789 000 ₽"
    );
}

#[test]
fn money_display_small_amounts() {
    assert_eq!(Money::from_roubles(7).to_string(), "7 ₽");
    assert_eq!(Money::from_roubles(999).to_string(), "999 ₽");
    assert_eq!(Money::from_roubles(-999).to_string(), "-999 ₽");
    assert_eq!(Money::from_roubles(1000).to_string(), "1 000 ₽");
    assert_eq!(Money::from_roubles(12345).to_string(), "12 345 ₽");
}

#[test]
fn money_display_negative_is_magnitude_with_minus() {
    for v in [1i64, 12, 123, 1234, 123456, 1234567] {
        let pos = Money::from_roubles(v).to_string();
        let neg = Money::from_roubles(-v).to_string();
        assert_eq!(neg, format!("-{}", pos));
    }
}

#[test]
fn money_units() {
    assert_eq!(Money::from_thousands(3).in_roubles(), 3000);
    assert_eq!(Money::from_millions(2).in_roubles(), 2_000_000);
    assert_eq!(Money::from_millions(-4).in_roubles(), -4_000_000);
    assert_eq!(Money::zero().in_roubles(), 0);
}

#[test]
fn money_add_and_sub() {
    let a = Money::from_roubles(1500);
    let b = Money::from_roubles(-200);
    assert_eq!((a + b).in_roubles(), 1300);
    assert_eq!((a - b).in_roubles(), 1700);
    assert_eq!(((a + b) - b).in_roubles(), a.in_roubles());
}

#[test]
fn money_multiplier_names() {
    assert_eq!(MoneyMultiplier::Thousands.name(), "Thousands");
    assert_eq!(MoneyMultiplier::Millions.name(), "Millions");
    assert_eq!(MoneyMultiplier::from_name("Thousands"), Some(MoneyMultiplier::Thousands));
    assert_eq!(MoneyMultiplier::from_name("Millions"), Some(MoneyMultiplier::Millions));
    assert_eq!(MoneyMultiplier::from_name("millions"), None);
    assert_eq!(MoneyMultiplier::from_name(""), None);
}

#[test]
fn money_order_follows_roubles() {
    let a = Money::from_roubles(-5);
    let b = Money::from_roubles(7);
    assert!(a < b);
    assert!(!(b < a));
    assert!(b > a);
    assert!(a <= Money::from_roubles(-5));
    assert_eq!(a.partial_cmp(&b), Some(std::cmp::Ordering::Less));
    assert_eq!(b.partial_cmp(&b), Some(std::cmp::Ordering::Equal));
    assert_eq!(Money::from_roubles(a.in_roubles()), a);
}
