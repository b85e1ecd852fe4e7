//! Building discount instructions and assembling the response.
//!
//! A resolved tier becomes a discount instruction targeting the originating
//! line's whole merchandise reference. The response gathers the instructions
//! of the qualifying lines in cart order and carries the fixed MAXIMUM
//! strategy tag: where several discounts could apply to an overlapping target,
//! the host's merge stage keeps the largest rather than stacking them. Lines
//! are independent: each line's outcome depends on that line's data alone.

use vstd::pervasive::unreached;
use vstd::prelude::*;

use crate::json::{arr_of, json_of};
use crate::resolver::{resolve, spec_best_tier};
use crate::tiers::{
    all_rows_ok, lemma_malformed_config_yields_no_tiers, parse_tiers, spec_parse_tiers, Tier,
    TierSpec,
};

verus! {

/// What a cart line sells: a product variant, carrying its merchandise
/// reference and, when the merchant configured one, the tier schedule's text;
/// or some other kind of merchandise, which is never discounted.
pub enum Merchandise {
    ProductVariant { id: String, config: Option<String> },
    Other,
}

/// Mathematical model of a `Merchandise`.
pub ghost enum MerchandiseSpec {
    ProductVariant { id: Seq<char>, config: Option<Seq<char>> },
    Other,
}

impl View for Merchandise {
    type V = MerchandiseSpec;

    open spec fn view(&self) -> MerchandiseSpec {
        match self {
            Merchandise::ProductVariant { id, config } => MerchandiseSpec::ProductVariant {
                id: id@,
                config: match config {
                    Some(c) => Some(c@),
                    None => None,
                },
            },
            Merchandise::Other => MerchandiseSpec::Other,
        }
    }
}

/// One line of the cart: its merchandise and a quantity.
pub struct CartLine {
    pub merchandise: Merchandise,
    pub quantity: i64,
}

/// Mathematical model of a `CartLine`.
pub ghost struct CartLineSpec {
    pub merchandise: MerchandiseSpec,
    pub quantity: int,
}

impl View for CartLine {
    type V = CartLineSpec;

    open spec fn view(&self) -> CartLineSpec {
        CartLineSpec { merchandise: self.merchandise@, quantity: self.quantity as int }
    }
}

/// One discount instruction: the targeted merchandise reference, the discount
/// percentage (as its decimal text) and an optional display message.
pub struct ResolvedDiscount {
    pub target: String,
    pub percentage: String,
    pub message: Option<String>,
}

/// Mathematical model of a `ResolvedDiscount`.
pub ghost struct ResolvedDiscountSpec {
    pub target: Seq<char>,
    pub percentage: Seq<char>,
    pub message: Option<Seq<char>>,
}

impl View for ResolvedDiscount {
    type V = ResolvedDiscountSpec;

    open spec fn view(&self) -> ResolvedDiscountSpec {
        ResolvedDiscountSpec {
            target: self.target@,
            percentage: self.percentage@,
            message: match &self.message {
                Some(m) => Some(m@),
                None => None,
            },
        }
    }
}

impl ResolvedDiscount {
    /// A fresh instruction with the same target, percentage and message.
    pub fn duplicate(&self) -> (r: ResolvedDiscount)
        ensures
            r@ == self@,
    {
        ResolvedDiscount {
            target: self.target.clone(),
            percentage: self.percentage.clone(),
            message: match &self.message {
                Some(m) => Some(m.clone()),
                None => None,
            },
        }
    }
}

/// How several discounts on an overlapping target interact downstream.
#[derive(Debug, PartialEq, Eq, Structural)]
pub enum Strategy {
    First,
    Maximum,
}

/// The aggregate result: the qualifying lines' discount instructions in cart
/// order, plus the strategy tag for the host's merge stage.
pub struct DiscountResponse {
    pub discounts: Vec<ResolvedDiscount>,
    pub strategy: Strategy,
}

/// The sequence of `ResolvedDiscount` models under a sequence of instructions.
pub open spec fn discounts_view(ds: Seq<ResolvedDiscount>) -> Seq<ResolvedDiscountSpec> {
    ds.map_values(|d: ResolvedDiscount| d@)
}

/// The model under one optional instruction.
pub open spec fn opt_discount_view(o: Option<ResolvedDiscount>) -> Option<ResolvedDiscountSpec> {
    match o {
        Some(d) => Some(d@),
        None => None,
    }
}

/// The sequence of models under a sequence of per-line outcomes.
pub open spec fn results_view(rs: Seq<Option<ResolvedDiscount>>) -> Seq<
    Option<ResolvedDiscountSpec>,
> {
    rs.map_values(|o: Option<ResolvedDiscount>| opt_discount_view(o))
}

/// The sequence of `CartLine` models under a sequence of lines.
pub open spec fn lines_view(ls: Seq<CartLine>) -> Seq<CartLineSpec> {
    ls.map_values(|l: CartLine| l@)
}

/// The instruction a resolved tier builds for a merchandise reference: the
/// whole line is targeted, the value is the tier's percentage, the message its
/// label.
pub open spec fn spec_build(id: Seq<char>, tier: TierSpec) -> ResolvedDiscountSpec {
    ResolvedDiscountSpec { target: id, percentage: tier.discount, message: Some(tier.label) }
}

/// A line's outcome: variant lines with a schedule whose best tier exists get
/// that tier's instruction; every other line gets none.
pub open spec fn spec_line_discount(line: CartLineSpec) -> Option<ResolvedDiscountSpec> {
    match line.merchandise {
        MerchandiseSpec::ProductVariant { id, config } => match config {
            Some(cfg) => match spec_best_tier(line.quantity, spec_parse_tiers(cfg)) {
                Some(t) => Some(spec_build(id, t)),
                None => None,
            },
            None => None,
        },
        MerchandiseSpec::Other => None,
    }
}

/// A singleton sequence of the outcome's instruction, or the empty sequence.
pub open spec fn opt_seq(o: Option<ResolvedDiscountSpec>) -> Seq<ResolvedDiscountSpec> {
    match o {
        Some(d) => seq![d],
        None => Seq::empty(),
    }
}

/// The instructions the response keeps: the `Some` outcomes, in order.
pub open spec fn spec_assemble(rs: Seq<Option<ResolvedDiscountSpec>>) -> Seq<ResolvedDiscountSpec>
    decreases rs.len(),
{
    if rs.len() == 0 {
        Seq::empty()
    } else {
        spec_assemble(rs.drop_last()) + opt_seq(rs.last())
    }
}

/// Each line's outcome, in cart order.
pub open spec fn line_discounts(lines: Seq<CartLineSpec>) -> Seq<Option<ResolvedDiscountSpec>> {
    lines.map_values(|l: CartLineSpec| spec_line_discount(l))
}

/// The whole system's result on a cart's lines.
pub open spec fn spec_run(lines: Seq<CartLineSpec>) -> Seq<ResolvedDiscountSpec> {
    spec_assemble(line_discounts(lines))
}

/// Build the discount instruction a resolved tier yields for a line.
pub fn build(line: &CartLine, tier: &Tier) -> (r: ResolvedDiscount)
    requires
        line@.merchandise is ProductVariant,
    ensures
        r@ == spec_build(line@.merchandise->ProductVariant_id, tier@),
{
    match &line.merchandise {
        Merchandise::ProductVariant { id, .. } => ResolvedDiscount {
            target: id.clone(),
            percentage: tier.discount.clone(),
            message: Some(tier.label.clone()),
        },
        Merchandise::Other => unreached(),
    }
}

/// One line's whole pipeline: decode its schedule, resolve the tier, build the
/// instruction. Total: a line with no variant, no schedule or no qualifying
/// tier simply yields nothing.
pub fn line_discount(line: &CartLine) -> (r: Option<ResolvedDiscount>)
    ensures
        opt_discount_view(r) == spec_line_discount(line@),
{
    match &line.merchandise {
        Merchandise::ProductVariant { id: _, config } => match config {
            Some(cfg) => {
                let tiers = parse_tiers(cfg.as_str());
                match resolve(line.quantity, &tiers) {
                    Some(t) => Some(build(line, &t)),
                    None => None,
                }
            },
            None => None,
        },
        Merchandise::Other => None,
    }
}

/// Assemble the response: keep the `Some` outcomes in order, under the fixed
/// MAXIMUM strategy.
pub fn assemble(results: &Vec<Option<ResolvedDiscount>>) -> (r: DiscountResponse)
    ensures
        r.strategy == Strategy::Maximum,
        discounts_view(r.discounts@) == spec_assemble(results_view(results@)),
{
    let mut ds: Vec<ResolvedDiscount> = Vec::new();
    let mut i: usize = 0;
    while i < results.len()
        invariant
            0 <= i <= results@.len(),
            discounts_view(ds@) == spec_assemble(results_view(results@).take(i as int)),
        decreases results@.len() - i,
    {
        proof {
            assert(results_view(results@).take(i + 1).drop_last() =~= results_view(
                results@,
            ).take(i as int));
            assert(results_view(results@).take(i + 1).last() == opt_discount_view(
                results@[i as int],
            ));
        }
        match &results[i] {
            Some(d) => {
                ds.push(d.duplicate());
            },
            None => {},
        }
        proof {
            assert(discounts_view(ds@) =~= spec_assemble(results_view(results@).take(i + 1)));
        }
        i += 1;
    }
    proof {
        assert(results_view(results@).take(results@.len() as int) =~= results_view(results@));
    }
    DiscountResponse { discounts: ds, strategy: Strategy::Maximum }
}

/// The whole computation: each line's outcome, assembled in cart order under
/// the MAXIMUM strategy. Total over every well-typed cart, the empty one
/// included.
pub fn run(cart: &Vec<CartLine>) -> (r: DiscountResponse)
    ensures
        r.strategy == Strategy::Maximum,
        discounts_view(r.discounts@) == spec_run(lines_view(cart@)),
{
    let mut results: Vec<Option<ResolvedDiscount>> = Vec::new();
    let mut i: usize = 0;
    while i < cart.len()
        invariant
            0 <= i <= cart@.len(),
            results@.len() == i,
            forall|k: int|
                0 <= k < i ==> opt_discount_view(#[trigger] results@[k]) == spec_line_discount(
                    lines_view(cart@)[k],
                ),
        decreases cart@.len() - i,
    {
        let d = line_discount(&cart[i]);
        results.push(d);
        proof {
            assert(lines_view(cart@)[i as int] == cart@[i as int]@);
        }
        i += 1;
    }
    proof {
        assert(results_view(results@) =~= line_discounts(lines_view(cart@)));
    }
    assemble(&results)
}

/// The merchandise reference a line could be discounted under, where it has
/// one.
pub open spec fn line_target(l: CartLineSpec) -> Option<Seq<char>> {
    match l.merchandise {
        MerchandiseSpec::ProductVariant { id, .. } => Some(id),
        MerchandiseSpec::Other => None,
    }
}

/// A line's instruction, where it gets one, targets that line's own
/// merchandise reference.
pub proof fn lemma_discount_targets_own_line(l: CartLineSpec)
    requires
        spec_line_discount(l) matches Some(d),
    ensures
        line_target(l) == Some(spec_line_discount(l)->0.target),
{
}

/// Splitting the run at its last line.
proof fn lemma_run_snoc(lines: Seq<CartLineSpec>)
    requires
        lines.len() > 0,
    ensures
        spec_run(lines) == spec_run(lines.drop_last()) + opt_seq(
            spec_line_discount(lines.last()),
        ),
{
    assert(line_discounts(lines).drop_last() =~= line_discounts(lines.drop_last()));
    assert(line_discounts(lines).last() == spec_line_discount(lines.last()));
}

/// Every instruction of the run is some line's outcome.
pub proof fn lemma_run_targets(lines: Seq<CartLineSpec>)
    ensures
        spec_run(lines).len() <= lines.len(),
        forall|k: int|
            0 <= k < spec_run(lines).len() ==> exists|i: int|
                0 <= i < lines.len() && spec_line_discount(#[trigger] lines[i]) == Some(
                    #[trigger] spec_run(lines)[k],
                ),
    decreases lines.len(),
{
    if lines.len() == 0 {
        assert(line_discounts(lines).len() == 0);
    } else {
        let prefix = lines.drop_last();
        lemma_run_snoc(lines);
        lemma_run_targets(prefix);
        assert forall|k: int| 0 <= k < spec_run(lines).len() implies exists|i: int|
            0 <= i < lines.len() && spec_line_discount(#[trigger] lines[i]) == Some(
                #[trigger] spec_run(lines)[k],
            ) by {
            if k < spec_run(prefix).len() {
                assert(spec_run(lines)[k] == spec_run(prefix)[k]);
                let i = choose|i: int|
                    0 <= i < prefix.len() && spec_line_discount(#[trigger] prefix[i]) == Some(
                        spec_run(prefix)[k],
                    );
                assert(lines[i] == prefix[i]);
                assert(spec_line_discount(lines[i]) == Some(spec_run(lines)[k]));
            } else {
                let i = lines.len() - 1;
                assert(lines[i] == lines.last());
                assert(spec_line_discount(lines[i]) == Some(spec_run(lines)[k]));
            }
        }
    }
}

/// At most one instruction per line: where the variant lines of a cart carry
/// pairwise distinct merchandise references, no two instructions of the
/// response target the same reference — so at most one targets any given
/// line's.
pub proof fn lemma_at_most_one_discount_per_line(lines: Seq<CartLineSpec>)
    requires
        forall|i: int, j: int|
            0 <= i < j < lines.len() && line_target(#[trigger] lines[i]) is Some && line_target(
                #[trigger] lines[j],
            ) is Some ==> line_target(lines[i]) != line_target(lines[j]),
    ensures
        forall|k1: int, k2: int|
            0 <= k1 < k2 < spec_run(lines).len() ==> (#[trigger] spec_run(lines)[k1]).target != (
            #[trigger] spec_run(lines)[k2]).target,
    decreases lines.len(),
{
    if lines.len() == 0 {
        assert(line_discounts(lines).len() == 0);
    } else {
        let prefix = lines.drop_last();
        lemma_run_snoc(lines);
        lemma_at_most_one_discount_per_line(prefix);
        lemma_run_targets(prefix);
        assert forall|k1: int, k2: int| 0 <= k1 < k2 < spec_run(lines).len() implies (
        #[trigger] spec_run(lines)[k1]).target != (#[trigger] spec_run(lines)[k2]).target by {
            if k2 < spec_run(prefix).len() {
                assert(spec_run(lines)[k1] == spec_run(prefix)[k1]);
                assert(spec_run(lines)[k2] == spec_run(prefix)[k2]);
            } else {
                // k2 names the last line's instruction; k1 names an earlier
                // line's, and their references differ by assumption.
                let last = lines.last();
                assert(spec_line_discount(last) is Some);
                assert(spec_run(lines)[k2] == spec_line_discount(last)->0);
                lemma_discount_targets_own_line(last);
                assert(spec_run(lines)[k1] == spec_run(prefix)[k1]);
                let i = choose|i: int|
                    0 <= i < prefix.len() && spec_line_discount(#[trigger] prefix[i]) == Some(
                        spec_run(prefix)[k1],
                    );
                lemma_discount_targets_own_line(prefix[i]);
                assert(lines[i] == prefix[i]);
                assert(line_target(lines[i]) == Some(spec_run(lines)[k1].target));
                assert(line_target(lines[lines.len() - 1]) == Some(spec_run(lines)[k2].target));
            }
        }
    }
}

/// Malformed-configuration tolerance, end to end: a variant line whose
/// schedule text does not decode — not valid JSON, not an array, or holding a
/// malformed row — gets no discount, whatever its quantity; no failure
/// propagates.
pub proof fn lemma_malformed_config_line_gets_no_discount(line: CartLineSpec, cfg: Seq<char>)
    requires
        line.merchandise matches MerchandiseSpec::ProductVariant { config, .. } && config == Some(
            cfg,
        ),
        json_of(cfg) matches Some(doc) ==> (arr_of(doc) matches Some(rows) ==> !all_rows_ok(rows)),
    ensures
        spec_line_discount(line) is None,
{
    lemma_malformed_config_yields_no_tiers(cfg);
    assert(spec_best_tier(line.quantity, spec_parse_tiers(cfg)) is None);
}

} // verus!
