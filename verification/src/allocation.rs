use vstd::prelude::*;

use crate::error::ValidationError;
use crate::json::{get_spec, number_spec, text_spec, JsonValue};
use crate::matrix::{build_error, is_built_from, json_to_price_matrix, PriceMatrix};

verus! {

/// The allocation strategies the dispatcher can ask the external optimizer
/// for. Anything that is not equal-weight or hierarchical risk parity falls
/// through to mean-variance optimization; that silent fallback is the defined
/// behaviour, not an accident.
#[derive(Clone, Copy, Debug, PartialEq, Eq, Structural)]
pub enum Strategy {
    EqualWeight,
    Hrp,
    Mvo,
}

/// Optional overrides for the mean-variance optimizer; each value is the
/// IEEE-754 bit pattern of the `f64` the caller supplied. An absent value
/// means "use the optimizer's default".
#[derive(Clone, Copy, Debug)]
pub struct MvoConfig {
    pub regularization: Option<u64>,
    pub shrinkage: Option<u64>,
}

/// `c` with an ASCII capital letter mapped to its small form; every other
/// character stays as it is.
pub open spec fn ascii_lower(c: char) -> char {
    if 'A' <= c && c <= 'Z' {
        ((c as u32) + 32) as char
    } else {
        c
    }
}

/// Whether `s`, lower-cased letter by letter (ASCII), reads exactly `t`.
pub open spec fn lower_eq(s: Seq<char>, t: Seq<char>) -> bool {
    s.len() == t.len() && (forall|i: int| 0 <= i < s.len() ==> ascii_lower(#[trigger] s[i]) == t[i])
}

/// The strategy a request names: the name is lower-cased before comparison,
/// `"ew"` and `"equal"` select equal weighting, `"hrp"` selects hierarchical
/// risk parity, and every other name falls through to mean-variance.
pub open spec fn strategy_of(s: Seq<char>) -> Strategy {
    if lower_eq(s, "ew"@) || lower_eq(s, "equal"@) {
        Strategy::EqualWeight
    } else if lower_eq(s, "hrp"@) {
        Strategy::Hrp
    } else {
        Strategy::Mvo
    }
}

/// `c` with an ASCII capital letter mapped to its small form.
fn lower_char(c: char) -> (r: char)
    ensures
        r == ascii_lower(c),
{
    let u = c as u32;
    if 65 <= u && u <= 90 {
        ((u + 32) as u8) as char
    } else {
        c
    }
}

/// Whether `s`, lower-cased (ASCII), reads exactly `t`.
fn matches_lowered(s: &str, t: &str) -> (r: bool)
    ensures
        r == lower_eq(s@, t@),
{
    let s_len = s.unicode_len();
    let t_len = t.unicode_len();
    if s_len != t_len {
        return false;
    }
    let mut i: usize = 0;
    while i < s_len
        invariant
            i <= s_len,
            s_len == s@.len(),
            t_len == t@.len(),
            s_len == t_len,
            forall|k: int| 0 <= k < i ==> ascii_lower(#[trigger] s@[k]) == t@[k],
        decreases s_len - i,
    {
        if lower_char(s.get_char(i)) != t.get_char(i) {
            return false;
        }
        i += 1;
    }
    true
}

/// Resolves a strategy name as the dispatcher does: case-insensitively, with
/// every unrecognized name falling through to mean-variance.
pub fn resolve_strategy(s: &str) -> (r: Strategy)
    ensures
        r == strategy_of(s@),
{
    if matches_lowered(s, "ew") || matches_lowered(s, "equal") {
        Strategy::EqualWeight
    } else if matches_lowered(s, "hrp") {
        Strategy::Hrp
    } else {
        Strategy::Mvo
    }
}

/// The weight a dense vector holds at position `j` after the sparse pairs are
/// applied in order: the weight of the last pair whose index is `j`, or the
/// bit pattern of `0.0` (which is zero) when no pair names `j`.
pub open spec fn dense_value(pairs: Seq<(usize, u64)>, j: int) -> u64
    decreases pairs.len(),
{
    if pairs.len() == 0 {
        0u64
    } else if pairs.last().0 == j {
        pairs.last().1
    } else {
        dense_value(pairs.drop_last(), j)
    }
}

/// Whether some pair names position `j`.
pub open spec fn has_index(pairs: Seq<(usize, u64)>, j: int) -> bool {
    exists|k: int| 0 <= k < pairs.len() && (#[trigger] pairs[k]).0 == j
}

/// A position that no pair names keeps the zero it was initialized with.
pub proof fn lemma_unnamed_position_stays_zero(pairs: Seq<(usize, u64)>, j: int)
    requires
        !has_index(pairs, j),
    ensures
        dense_value(pairs, j) == 0,
    decreases pairs.len(),
{
    if pairs.len() > 0 {
        assert(pairs[pairs.len() - 1].0 != j);
        assert(forall|k: int|
            0 <= k < pairs.len() - 1 ==> (#[trigger] pairs.drop_last()[k]) == pairs[k]);
        lemma_unnamed_position_stays_zero(pairs.drop_last(), j);
    }
}

/// Spreads the optimizer's sparse index-to-weight pairs into a dense vector
/// of `cols` weights, dropping every out-of-range index silently: such a pair
/// raises no error and the positions it does not name stay zero.
pub fn densify_weights(pairs: &Vec<(usize, u64)>, cols: usize) -> (r: Vec<u64>)
    ensures
        r@.len() == cols,
        forall|j: int| 0 <= j < cols ==> r@[j] == dense_value(pairs@, j),
        forall|j: int| 0 <= j < cols && !has_index(pairs@, j) ==> r@[j] == 0,
{
    let mut weights: Vec<u64> = Vec::new();
    let mut i: usize = 0;
    while i < cols
        invariant
            i <= cols,
            weights@.len() == i,
            forall|j: int| 0 <= j < i ==> weights@[j] == 0,
        decreases cols - i,
    {
        weights.push(0);
        i += 1;
    }
    proof {
        assert(pairs@.take(0).len() == 0);
        assert(forall|j: int| 0 <= j < cols ==> dense_value(pairs@.take(0), j) == 0);
    }
    let n = pairs.len();
    let mut k: usize = 0;
    while k < n
        invariant
            k <= n,
            n == pairs@.len(),
            weights@.len() == cols,
            forall|j: int| 0 <= j < cols ==> weights@[j] == dense_value(pairs@.take(k as int), j),
        decreases n - k,
    {
        let (idx, w) = pairs[k];
        if idx < cols {
            weights.set(idx, w);
        }
        proof {
            let p = pairs@;
            assert(p.take(k + 1).drop_last() =~= p.take(k as int));
            assert(p.take(k + 1).last() == p[k as int]);
        }
        k += 1;
    }
    proof {
        assert(pairs@.take(n as int) =~= pairs@);
        assert forall|j: int| 0 <= j < cols && !has_index(pairs@, j)
            implies weights@[j] == 0 by {
            lemma_unnamed_position_stays_zero(pairs@, j);
        }
    }
    weights
}

/// The strategy a request body names, after the default: an absent or
/// non-string `strategy` field means `"mvo"`.
pub open spec fn strategy_field(v: JsonValue) -> Strategy {
    match get_spec(v, "strategy"@) {
        Some(s) => match text_spec(s) {
            Some(name) => strategy_of(name),
            None => Strategy::Mvo,
        },
        None => Strategy::Mvo,
    }
}

/// The strategy name a successful response echoes back: the request's
/// `strategy` string as it was sent, or `"mvo"` when the field is absent or
/// not a string.
pub open spec fn strategy_label_of(v: JsonValue) -> Seq<char> {
    match get_spec(v, "strategy"@) {
        Some(s) => match text_spec(s) {
            Some(name) => name,
            None => "mvo"@,
        },
        None => "mvo"@,
    }
}

/// The strategy name to echo in a response, with the `"mvo"` default applied.
pub fn strategy_label(v: &JsonValue) -> (r: String)
    ensures
        r@ == strategy_label_of(*v),
{
    match v.get("strategy") {
        Some(s) => match s.as_text() {
            Some(name) => String::from_str(name.as_str()),
            None => String::from_str("mvo"),
        },
        None => String::from_str("mvo"),
    }
}

/// The numeric value of an optional field, when the field holds a number.
pub open spec fn number_field(v: JsonValue, key: Seq<char>) -> Option<u64> {
    match get_spec(v, key) {
        Some(x) => number_spec(x),
        None => None,
    }
}

/// The mean-variance overrides a request body carries: present exactly when
/// the body has an `mvo` field, with each override taken from the field's
/// object when it holds a number there.
pub open spec fn mvo_field(v: JsonValue) -> Option<MvoConfig> {
    match get_spec(v, "mvo"@) {
        Some(cfg) => Some(
            MvoConfig {
                regularization: number_field(cfg, "regularization"@),
                shrinkage: number_field(cfg, "shrinkage"@),
            },
        ),
        None => None,
    }
}

/// Everything the dispatcher needs before it calls the external optimizer:
/// the validated matrix, the resolved strategy, and the optional overrides.
#[derive(Debug)]
pub struct AllocationPlan {
    pub matrix: PriceMatrix,
    pub strategy: Strategy,
    pub mvo: Option<MvoConfig>,
}

/// Reads an allocation request body into a plan: the price matrix is built
/// and validated as `json_to_price_matrix` states, the strategy is resolved
/// with `"mvo"` as the default, and the overrides are carried along. The
/// result is `Ok` exactly when the price data passes every check.
pub fn plan_allocation(v: &JsonValue) -> (r: Result<AllocationPlan, ValidationError>)
    ensures
        (r is Ok) == (build_error(*v) is None),
        r is Err ==> Some(r->Err_0) == build_error(*v),
        r is Ok ==> is_built_from(r->Ok_0.matrix, *v),
        r is Ok ==> r->Ok_0.strategy == strategy_field(*v),
        r is Ok ==> r->Ok_0.mvo == mvo_field(*v),
{
    let matrix = match json_to_price_matrix(v) {
        Ok(m) => m,
        Err(e) => {
            return Err(e);
        },
    };
    let strategy = match v.get("strategy") {
        Some(s) => match s.as_text() {
            Some(name) => resolve_strategy(name.as_str()),
            None => Strategy::Mvo,
        },
        None => Strategy::Mvo,
    };
    let mvo = match v.get("mvo") {
        Some(cfg) => Some(
            MvoConfig {
                regularization: match cfg.get("regularization") {
                    Some(x) => x.number_bits(),
                    None => None,
                },
                shrinkage: match cfg.get("shrinkage") {
                    Some(x) => x.number_bits(),
                    None => None,
                },
            },
        ),
        None => None,
    };
    Ok(AllocationPlan { matrix, strategy, mvo })
}

} // verus!
