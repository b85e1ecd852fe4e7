use volume_logic::discounts::{
    assemble, build, run, CartLine, Merchandise, ResolvedDiscount, Strategy,
};
use volume_logic::tiers::Tier;

const TWO_TIERS: &str =
    r#"[{"qty":5,"discount":10,"label":"10% off 5+"},{"qty":10,"discount":20,"label":"20% off 10+"}]"#;

fn variant_line(id: &str, config: Option<&str>, quantity: i64) -> CartLine {
    CartLine {
        merchandise: Merchandise::ProductVariant {
            id: id.to_string(),
            config: config.map(|c| c.to_string()),
        },
        quantity,
    }
}

#[test]
fn quantity_twelve_gets_the_deepest_tier() {
    let cart = vec![variant_line("gid://product/1", Some(TWO_TIERS), 12)];
    let r = run(&cart);
    assert_eq!(r.strategy, Strategy::Maximum);
    assert_eq!(r.discounts.len(), 1);
    assert_eq!(r.discounts[0].target, "gid://product/1");
    assert_eq!(r.discounts[0].percentage, "20");
    assert_eq!(r.discounts[0].message.as_deref(), Some("20% off 10+"));
}

#[test]
fn quantity_seven_gets_the_lower_tier() {
    let cart = vec![variant_line("gid://product/1", Some(TWO_TIERS), 7)];
    let r = run(&cart);
    assert_eq!(r.discounts.len(), 1);
    assert_eq!(r.discounts[0].percentage, "10");
    assert_eq!(r.discounts[0].message.as_deref(), Some("10% off 5+"));
}

#[test]
fn quantity_three_gets_nothing() {
    let cart = vec![variant_line("gid://product/1", Some(TWO_TIERS), 3)];
    let r = run(&cart);
    assert_eq!(r.discounts.len(), 0);
    assert_eq!(r.strategy, Strategy::Maximum);
}

#[test]
fn invalid_config_text_gets_nothing_regardless_of_quantity() {
    let cart = vec![variant_line("gid://product/1", Some("not valid json"), 1_000_000)];
    let r = run(&cart);
    assert_eq!(r.discounts.len(), 0);
    assert_eq!(r.strategy, Strategy::Maximum);
}

#[test]
fn one_of_two_lines_qualifies() {
    let cart = vec![
        variant_line("gid://product/a", Some(TWO_TIERS), 2),
        variant_line("gid://product/b", Some(TWO_TIERS), 12),
    ];
    let r = run(&cart);
    assert_eq!(r.discounts.len(), 1);
    assert_eq!(r.discounts[0].target, "gid://product/b");
    assert_eq!(r.strategy, Strategy::Maximum);
}

#[test]
fn empty_cart_gives_an_empty_response() {
    let r = run(&Vec::new());
    assert_eq!(r.discounts.len(), 0);
    assert_eq!(r.strategy, Strategy::Maximum);
}

#[test]
fn other_merchandise_is_never_discounted() {
    let cart = vec![CartLine { merchandise: Merchandise::Other, quantity: 50 }];
    assert_eq!(run(&cart).discounts.len(), 0);
}

#[test]
fn line_without_config_is_skipped() {
    let cart = vec![variant_line("gid://product/1", None, 50)];
    assert_eq!(run(&cart).discounts.len(), 0);
}

#[test]
fn cart_order_is_preserved_among_qualifiers() {
    let cart = vec![
        variant_line("gid://product/a", Some(TWO_TIERS), 6),
        variant_line("gid://product/b", Some(TWO_TIERS), 3),
        variant_line("gid://product/c", Some(TWO_TIERS), 11),
    ];
    let r = run(&cart);
    assert_eq!(r.discounts.len(), 2);
    assert_eq!(r.discounts[0].target, "gid://product/a");
    assert_eq!(r.discounts[1].target, "gid://product/c");
}

#[test]
fn build_targets_the_whole_line() {
    let line = variant_line("gid://product/9", Some(TWO_TIERS), 12);
    let tier = Tier { threshold: 10, discount: "20".to_string(), label: "20% off 10+".to_string() };
    let d = build(&line, &tier);
    assert_eq!(d.target, "gid://product/9");
    assert_eq!(d.percentage, "20");
    assert_eq!(d.message.as_deref(), Some("20% off 10+"));
}

#[test]
fn assemble_keeps_the_some_outcomes_in_order() {
    let d1 = ResolvedDiscount {
        target: "a".to_string(),
        percentage: "10".to_string(),
        message: None,
    };
    let d2 = ResolvedDiscount {
        target: "b".to_string(),
        percentage: "20".to_string(),
        message: Some("x".to_string()),
    };
    let r = assemble(&vec![None, Some(d1), None, Some(d2)]);
    assert_eq!(r.discounts.len(), 2);
    assert_eq!(r.discounts[0].target, "a");
    assert_eq!(r.discounts[1].target, "b");
    assert_eq!(r.strategy, Strategy::Maximum);
}
