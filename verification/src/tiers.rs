//! Decoding a merchant's tier schedule.
//!
//! A schedule arrives as text: a JSON array of rows, each an object carrying a
//! quantity threshold under `"qty"`, a discount percentage under `"discount"`
//! and a display label under `"label"`. Decoding is all-or-nothing: text that
//! is not valid JSON, not an array, or holds one malformed row yields an empty
//! schedule rather than a best-effort subset. An empty schedule is a recovered
//! condition, not an error: the line simply has no applicable tiers.

use vstd::prelude::*;

use crate::json::{
    arr_of, field_of, int_of, json_of, json_parse, num_of, num_text_of, number_text, str_of,
    value_as_array, value_as_i64, value_as_number, value_as_str, value_get,
};

verus! {

/// One row of merchant configuration: a quantity threshold, a discount
/// percentage (kept as its decimal text, since the algorithm never computes
/// with it), and a display label.
pub struct Tier {
    pub threshold: i64,
    pub discount: String,
    pub label: String,
}

/// Mathematical model of a `Tier`.
pub ghost struct TierSpec {
    pub threshold: int,
    pub discount: Seq<char>,
    pub label: Seq<char>,
}

impl View for Tier {
    type V = TierSpec;

    open spec fn view(&self) -> TierSpec {
        TierSpec {
            threshold: self.threshold as int,
            discount: self.discount@,
            label: self.label@,
        }
    }
}

impl Tier {
    /// A fresh tier with the same threshold, discount text and label.
    pub fn duplicate(&self) -> (r: Tier)
        ensures
            r@ == self@,
    {
        Tier {
            threshold: self.threshold,
            discount: self.discount.clone(),
            label: self.label.clone(),
        }
    }
}

/// The sequence of `Tier` models under a sequence of tiers.
pub open spec fn tiers_view(ts: Seq<Tier>) -> Seq<TierSpec> {
    ts.map_values(|t: Tier| t@)
}

/// The tier a well-shaped row decodes to: the row must be an object whose
/// `"qty"` is a number written as an integer fitting `i64`, whose `"discount"`
/// is a number, and whose `"label"` is a string; other keys are ignored.
pub open spec fn spec_row_tier(v: serde_json::Value) -> Option<TierSpec> {
    match field_of(v, "qty"@) {
        Some(qv) => match int_of(qv) {
            Some(q) => match field_of(v, "discount"@) {
                Some(dv) => match num_of(dv) {
                    Some(n) => match field_of(v, "label"@) {
                        Some(lv) => match str_of(lv) {
                            Some(l) => Some(
                                TierSpec { threshold: q as int, discount: num_text_of(n), label: l },
                            ),
                            None => None,
                        },
                        None => None,
                    },
                    None => None,
                },
                None => None,
            },
            None => None,
        },
        None => None,
    }
}

/// Every row of the array decodes to a tier.
pub open spec fn all_rows_ok(rows: Seq<serde_json::Value>) -> bool {
    forall|i: int| 0 <= i < rows.len() ==> spec_row_tier(rows[i]) is Some
}

/// The schedule a piece of configuration text decodes to: the rows of a valid
/// JSON array whose rows are all well shaped, and the empty schedule otherwise.
pub open spec fn spec_parse_tiers(s: Seq<char>) -> Seq<TierSpec> {
    match json_of(s) {
        Some(doc) => match arr_of(doc) {
            Some(rows) => if all_rows_ok(rows) {
                Seq::new(rows.len(), |i: int| spec_row_tier(rows[i])->0)
            } else {
                Seq::empty()
            },
            None => Seq::empty(),
        },
        None => Seq::empty(),
    }
}

/// Decode one row.
fn row_tier(v: &serde_json::Value) -> (r: Option<Tier>)
    ensures
        match r {
            Some(t) => spec_row_tier(*v) == Some(t@),
            None => spec_row_tier(*v) is None,
        },
{
    let qv = match value_get(v, "qty") {
        Some(x) => x,
        None => return None,
    };
    let q = match value_as_i64(&qv) {
        Some(x) => x,
        None => return None,
    };
    let dv = match value_get(v, "discount") {
        Some(x) => x,
        None => return None,
    };
    let n = match value_as_number(&dv) {
        Some(x) => x,
        None => return None,
    };
    let lv = match value_get(v, "label") {
        Some(x) => x,
        None => return None,
    };
    let l = match value_as_str(&lv) {
        Some(x) => x,
        None => return None,
    };
    Some(Tier { threshold: q, discount: number_text(&n), label: l })
}

/// Decode a schedule's text into its tiers; malformed text yields no tiers.
pub fn parse_tiers(raw: &str) -> (r: Vec<Tier>)
    ensures
        tiers_view(r@) == spec_parse_tiers(raw@),
{
    let empty: Vec<Tier> = Vec::new();
    proof {
        assert(tiers_view(empty@) =~= Seq::<TierSpec>::empty());
    }
    let doc = match json_parse(raw) {
        Some(d) => d,
        None => return empty,
    };
    let rows = match value_as_array(&doc) {
        Some(rs) => rs,
        None => return empty,
    };
    let mut out: Vec<Tier> = Vec::new();
    let mut i: usize = 0;
    while i < rows.len()
        invariant
            0 <= i <= rows@.len(),
            empty@.len() == 0,
            json_of(raw@) == Some(doc),
            arr_of(doc) == Some(rows@),
            out@.len() == i,
            forall|j: int|
                0 <= j < i ==> #[trigger] spec_row_tier(rows@[j]) is Some && out@[j]@
                    == spec_row_tier(rows@[j])->0,
        decreases rows@.len() - i,
    {
        match row_tier(&rows[i]) {
            Some(t) => out.push(t),
            None => {
                proof {
                    assert(spec_row_tier(rows@[i as int]) is None);
                    assert(!all_rows_ok(rows@));
                    assert(tiers_view(empty@) =~= Seq::<TierSpec>::empty());
                }
                return empty;
            },
        }
        i += 1;
    }
    proof {
        assert(all_rows_ok(rows@));
        assert(tiers_view(out@) =~= Seq::new(rows@.len(), |k: int| spec_row_tier(rows@[k])->0));
    }
    out
}

/// Malformed-configuration tolerance: text that does not parse as a JSON
/// document, or not as an array, or whose array holds one malformed row,
/// decodes to the empty schedule.
pub proof fn lemma_malformed_config_yields_no_tiers(s: Seq<char>)
    requires
        json_of(s) matches Some(doc) ==> (arr_of(doc) matches Some(rows) ==> !all_rows_ok(rows)),
    ensures
        spec_parse_tiers(s) == Seq::<TierSpec>::empty(),
{
}

} // verus!
