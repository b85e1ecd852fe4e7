use volume_logic::resolver::resolve;
use volume_logic::tiers::{parse_tiers, Tier};

fn tier(threshold: i64, discount: &str, label: &str) -> Tier {
    Tier { threshold, discount: discount.to_string(), label: label.to_string() }
}

fn two_tiers() -> Vec<Tier> {
    vec![tier(5, "10", "10% off 5+"), tier(10, "20", "20% off 10+")]
}

#[test]
fn highest_reached_threshold_wins() {
    let r = resolve(12, &two_tiers()).unwrap();
    assert_eq!(r.threshold, 10);
    assert_eq!(r.discount, "20");
    assert_eq!(r.label, "20% off 10+");
}

#[test]
fn midrange_quantity_gets_the_lower_tier() {
    let r = resolve(7, &two_tiers()).unwrap();
    assert_eq!(r.threshold, 5);
    assert_eq!(r.discount, "10");
    assert_eq!(r.label, "10% off 5+");
}

#[test]
fn quantity_below_every_threshold_gets_nothing() {
    assert!(resolve(3, &two_tiers()).is_none());
}

#[test]
fn quantity_at_the_threshold_qualifies() {
    let r = resolve(5, &two_tiers()).unwrap();
    assert_eq!(r.threshold, 5);
}

#[test]
fn empty_schedule_gets_nothing() {
    assert!(resolve(100, &Vec::new()).is_none());
}

#[test]
fn selection_key_is_threshold_not_discount() {
    let tiers = vec![tier(5, "50", "big"), tier(10, "5", "small")];
    let r = resolve(12, &tiers).unwrap();
    assert_eq!(r.threshold, 10);
    assert_eq!(r.discount, "5");
    assert_eq!(r.label, "small");
}

#[test]
fn tie_breaks_in_favour_of_the_first_seen() {
    let tiers = vec![tier(5, "10", "first"), tier(5, "20", "second")];
    let r = resolve(6, &tiers).unwrap();
    assert_eq!(r.label, "first");
    assert_eq!(r.discount, "10");
}

#[test]
fn order_of_unequal_tiers_does_not_matter() {
    let forward = resolve(12, &two_tiers()).unwrap();
    let reversed = vec![tier(10, "20", "20% off 10+"), tier(5, "10", "10% off 5+")];
    let backward = resolve(12, &reversed).unwrap();
    assert_eq!(forward.threshold, backward.threshold);
    assert_eq!(forward.discount, backward.discount);
    assert_eq!(forward.label, backward.label);
}

#[test]
fn resolve_composes_with_parse() {
    let text = r#"[{"qty":5,"discount":10,"label":"10% off 5+"},{"qty":10,"discount":20,"label":"20% off 10+"}]"#;
    let tiers = parse_tiers(text);
    let r = resolve(12, &tiers).unwrap();
    assert_eq!(r.discount, "20");
    assert!(resolve(3, &tiers).is_none());
}
