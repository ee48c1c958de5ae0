use gold_watch::price::Price;
use gold_watch::rule::{find_due, Direction, WatchRule};

fn price(text: &str) -> Price {
    Price::parse(text).unwrap()
}

fn rule(id: i64, threshold: &str, direction: Direction, closed: bool) -> WatchRule {
    WatchRule {
        id,
        code: "glod".to_string(),
        threshold: price(threshold),
        direction,
        closed,
    }
}

#[test]
fn sell_rule_fires_at_or_above_threshold() {
    let r = rule(1, "400.00", Direction::SellWhenAtOrAbove, false);
    assert!(r.triggers(&price("400.00")));
    assert!(r.triggers(&price("400")));
    assert!(r.triggers(&price("400.01")));
    assert!(!r.triggers(&price("399.99")));
}

#[test]
fn buy_rule_fires_at_or_below_threshold() {
    let r = rule(2, "400.00", Direction::BuyWhenAtOrBelow, false);
    assert!(r.triggers(&price("400.00")));
    assert!(r.triggers(&price("399.999")));
    assert!(!r.triggers(&price("400.001")));
}

#[test]
fn comparison_is_exact_at_eighteen_places() {
    let a = price("1.000000000000000001");
    let b = price("1");
    assert!(b.at_most(&a));
    assert!(!a.at_most(&b));
    assert_eq!(a.units(), 1_000_000_000_000_000_001);
}

#[test]
fn parse_reads_decimal_text_exactly() {
    assert_eq!(price("451.00").units(), 451_000_000_000_000_000_000);
    assert_eq!(price("-2.5").units(), -2_500_000_000_000_000_000);
    assert_eq!(price("4.5e-1").units(), 450_000_000_000_000_000);
    // a negative scale is refused
    assert!(Price::parse("4.5e2").is_none());
    assert!(Price::parse("abc").is_none());
    assert!(Price::parse("").is_none());
    // more places than a price holds
    assert!(Price::parse("0.0000000000000000001").is_none());
    // a negative scale is refused
    assert!(Price::parse("1e3").is_none());
}

#[test]
fn new_refuses_too_many_places() {
    assert!(Price::new(1, 18).is_some());
    assert!(Price::new(1, 19).is_none());
    assert_eq!(Price::new(45100, 2).unwrap().units(), price("451").units());
}

#[test]
fn from_parts_checks_the_scale() {
    assert_eq!(Price::from_parts(Some((12, 1))).unwrap().units(), 1_200_000_000_000_000_000);
    assert!(Price::from_parts(Some((12, -1))).is_none());
    assert!(Price::from_parts(Some((12, 19))).is_none());
    assert!(Price::from_parts(None).is_none());
}

#[test]
fn direction_codes() {
    assert_eq!(Direction::from_code("0"), Some(Direction::SellWhenAtOrAbove));
    assert_eq!(Direction::from_code("1"), Some(Direction::BuyWhenAtOrBelow));
    assert_eq!(Direction::from_code("2"), None);
    assert_eq!(Direction::from_code("01"), None);
    assert_eq!(Direction::from_code(""), None);
}

#[test]
fn find_due_skips_closed_and_quiet_rules() {
    let rules = vec![
        rule(1, "450.00", Direction::SellWhenAtOrAbove, true),
        rule(2, "460.00", Direction::SellWhenAtOrAbove, false),
        rule(3, "452.00", Direction::BuyWhenAtOrBelow, false),
        rule(4, "440.00", Direction::SellWhenAtOrAbove, false),
    ];
    let p = price("451.00");
    assert_eq!(find_due(&rules, &p, 0), 2);
    assert_eq!(find_due(&rules, &p, 3), 3);
    assert_eq!(find_due(&rules, &p, 4), 4);
    assert_eq!(find_due(&rules, &price("500"), 0), 1);
}
