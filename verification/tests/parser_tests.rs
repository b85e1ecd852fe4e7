use volume_logic::tiers::parse_tiers;

const TWO_TIERS: &str =
    r#"[{"qty":5,"discount":10,"label":"10% off 5+"},{"qty":10,"discount":20,"label":"20% off 10+"}]"#;

#[test]
fn parses_two_rows() {
    let tiers = parse_tiers(TWO_TIERS);
    assert_eq!(tiers.len(), 2);
    assert_eq!(tiers[0].threshold, 5);
    assert_eq!(tiers[0].discount, "10");
    assert_eq!(tiers[0].label, "10% off 5+");
    assert_eq!(tiers[1].threshold, 10);
    assert_eq!(tiers[1].discount, "20");
    assert_eq!(tiers[1].label, "20% off 10+");
}

#[test]
fn malformed_text_yields_no_tiers() {
    assert_eq!(parse_tiers("not valid json").len(), 0);
}

#[test]
fn empty_text_yields_no_tiers() {
    assert_eq!(parse_tiers("").len(), 0);
}

#[test]
fn non_array_yields_no_tiers() {
    assert_eq!(parse_tiers(r#"{"qty":5,"discount":10,"label":"x"}"#).len(), 0);
}

#[test]
fn empty_array_yields_no_tiers() {
    assert_eq!(parse_tiers("[]").len(), 0);
}

#[test]
fn one_malformed_row_spoils_the_whole_schedule() {
    let text = r#"[{"qty":5,"discount":10,"label":"a"},{"qty":10,"discount":20}]"#;
    assert_eq!(parse_tiers(text).len(), 0);
}

#[test]
fn qty_of_wrong_type_spoils_the_whole_schedule() {
    assert_eq!(parse_tiers(r#"[{"qty":"5","discount":10,"label":"a"}]"#).len(), 0);
}

#[test]
fn fractional_qty_spoils_the_whole_schedule() {
    assert_eq!(parse_tiers(r#"[{"qty":5.5,"discount":10,"label":"a"}]"#).len(), 0);
}

#[test]
fn qty_beyond_i64_spoils_the_whole_schedule() {
    assert_eq!(parse_tiers(r#"[{"qty":9223372036854775808,"discount":10,"label":"a"}]"#).len(), 0);
}

#[test]
fn label_of_wrong_type_spoils_the_whole_schedule() {
    assert_eq!(parse_tiers(r#"[{"qty":5,"discount":10,"label":7}]"#).len(), 0);
}

#[test]
fn discount_of_wrong_type_spoils_the_whole_schedule() {
    assert_eq!(parse_tiers(r#"[{"qty":5,"discount":"10","label":"a"}]"#).len(), 0);
}

#[test]
fn extra_keys_are_ignored() {
    let tiers = parse_tiers(r#"[{"qty":3,"discount":5,"label":"a","note":"ignored"}]"#);
    assert_eq!(tiers.len(), 1);
    assert_eq!(tiers[0].threshold, 3);
}

#[test]
fn fractional_discount_keeps_its_decimal_text() {
    let tiers = parse_tiers(r#"[{"qty":2,"discount":12.5,"label":"a"}]"#);
    assert_eq!(tiers.len(), 1);
    assert_eq!(tiers[0].discount, "12.5");
}

#[test]
fn negative_threshold_is_not_validated_away() {
    let tiers = parse_tiers(r#"[{"qty":-1,"discount":3,"label":"a"}]"#);
    assert_eq!(tiers.len(), 1);
    assert_eq!(tiers[0].threshold, -1);
}
