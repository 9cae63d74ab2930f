use vstd::prelude::*;

use crate::amount::{div_round_to_zero, div_toward_zero, fits_i64, SCALE};
use crate::timestamp::{now, Timestamp};

verus! {

/// The trader's state of mind before a session. The gain or loss of the
/// day before is a fixed-point percentage and the risk score a fixed-point
/// number (see `amount`).
#[derive(Clone, Debug)]
pub struct PsychologicalState {
    pub id: Option<i64>,
    pub timestamp: Timestamp,
    pub gain_loss_yesterday: i64,
    /// -3 to +3.
    pub emotional_state: i32,
    /// -3 to +3.
    pub fomo: i32,
    /// -3 to +3.
    pub market_bias: i32,
    /// 0 to +3.
    pub hunger: i32,
    /// 0 to +3.
    pub headache_pain: i32,
    /// Further labelled scores; the order of the entries carries no meaning.
    pub extra_factors: Vec<(String, i32)>,
    /// Derived: see `risk_score_of`.
    pub total_risk_score: i64,
}

/// The extra factors as plain values.
pub open spec fn factors_view(f: Seq<(String, i32)>) -> Seq<(Seq<char>, i32)> {
    f.map_values(|p: (String, i32)| (p.0@, p.1))
}

/// No label names two factors: the factors form a mapping.
pub open spec fn labels_distinct(f: Seq<(Seq<char>, i32)>) -> bool {
    forall|i: int, j: int| 0 <= i < j < f.len() ==> #[trigger] f[i].0 != #[trigger] f[j].0
}

/// The sum of the scores of the extra factors.
pub open spec fn factors_sum(f: Seq<(Seq<char>, i32)>) -> int
    decreases f.len(),
{
    if f.len() == 0 {
        0
    } else {
        factors_sum(f.drop_last()) + f.last().1
    }
}

proof fn factors_sum_remove(f: Seq<(Seq<char>, i32)>, k: int)
    requires
        0 <= k < f.len(),
    ensures
        factors_sum(f) == factors_sum(f.remove(k)) + f[k].1,
    decreases f.len(),
{
    if k == f.len() - 1 {
        assert(f.remove(k) =~= f.drop_last());
    } else {
        factors_sum_remove(f.drop_last(), k);
        assert(f.remove(k).drop_last() =~= f.drop_last().remove(k));
        assert(f.remove(k).last() == f.last());
    }
}

/// The sum of the scores does not depend on the order of the factors.
pub proof fn factors_sum_permutation(f: Seq<(Seq<char>, i32)>, g: Seq<(Seq<char>, i32)>)
    requires
        f.to_multiset() == g.to_multiset(),
    ensures
        factors_sum(f) == factors_sum(g),
    decreases f.len(),
{
    broadcast use vstd::seq_lib::group_to_multiset_ensures;
    if f.len() == 0 {
        vstd::seq_lib::to_multiset_len(f);
        vstd::seq_lib::to_multiset_len(g);
    } else {
        let e = f.last();
        assert(f.remove(f.len() - 1) =~= f.drop_last());
        assert(f.to_multiset().count(e) > 0) by {
            assert(f.contains(e)) by {
                assert(f[f.len() - 1] == e);
            }
        }
        assert(g.contains(e));
        let k = choose|k: int| 0 <= k < g.len() && g[k] == e;
        factors_sum_permutation(f.drop_last(), g.remove(k));
        factors_sum_remove(g, k);
    }
}

/// Mood, physical and extra scores added up.
pub open spec fn risk_points(s: PsychologicalState) -> int {
    (s.emotional_state + s.fomo + s.market_bias) + (s.hunger + s.headache_pain) + factors_sum(factors_view(s.extra_factors@))
}

/// Yesterday's gain or loss as a fraction, in millionths, clamped to
/// [-1, 1]: -100% and below count as -1, +100% and above as +1.
pub open spec fn clamped_pnl(gain_loss: i64) -> int {
    if gain_loss < -100 * SCALE {
        -100 * SCALE
    } else if gain_loss > 100 * SCALE {
        100 * SCALE
    } else {
        gain_loss as int
    }
}

/// Three times the exact risk score, in millionths:
/// (points + clamp(gain_loss / 100, -1, 1) * 3) * 1_000_000.
pub open spec fn risk_millionths_times_three(s: PsychologicalState) -> int {
    risk_points(s) * 1_000_000 + 3 * clamped_pnl(s.gain_loss_yesterday)
}

/// (points + clamp(gain_loss / 100, -1, 1) * 3) / 3, as a fixed-point number
/// rounded toward zero.
pub open spec fn risk_score_of(s: PsychologicalState) -> int {
    div_toward_zero(risk_millionths_times_three(s), 300)
}

impl PsychologicalState {
    /// A neutral state with no extra factors, stamped now.
    pub fn new() -> (r: PsychologicalState)
        ensures
            r.id is None,
            r.gain_loss_yesterday == 0,
            r.emotional_state == 0,
            r.fomo == 0,
            r.market_bias == 0,
            r.hunger == 0,
            r.headache_pain == 0,
            r.extra_factors@.len() == 0,
            r.total_risk_score == 0,
    {
        PsychologicalState {
            id: None,
            timestamp: now(),
            gain_loss_yesterday: 0,
            emotional_state: 0,
            fomo: 0,
            market_bias: 0,
            hunger: 0,
            headache_pain: 0,
            extra_factors: Vec::new(),
            total_risk_score: 0,
        }
    }

    /// The risk score of the current fields.
    pub fn calculate_total_risk(&self) -> (r: i64)
        requires
            fits_i64(risk_score_of(*self)),
        ensures
            r == risk_score_of(*self),
    {
        self.risk_score_wide() as i64
    }

    /// Whether the risk score of the current fields can be held in an `i64`.
    pub fn risk_score_in_range(&self) -> (r: bool)
        ensures
            r == fits_i64(risk_score_of(*self)),
    {
        let wide = self.risk_score_wide();
        i64::MIN as i128 <= wide && wide <= i64::MAX as i128
    }

    fn risk_score_wide(&self) -> (r: i128)
        ensures
            r == risk_score_of(*self),
    {
        let mut extras: i128 = 0;
        let mut i: usize = 0;
        while i < self.extra_factors.len()
            invariant
                i <= self.extra_factors@.len(),
                extras == factors_sum(factors_view(self.extra_factors@.subrange(0, i as int))),
                -(i as int) * 0x8000_0000 <= extras <= i as int * 0x8000_0000,
            decreases self.extra_factors@.len() - i,
        {
            proof {
                assert(factors_view(self.extra_factors@.subrange(0, i + 1)).drop_last()
                    =~= factors_view(self.extra_factors@.subrange(0, i as int)));
            }
            extras = extras + self.extra_factors[i].1 as i128;
            i = i + 1;
        }
        proof {
            assert(self.extra_factors@.subrange(0, i as int) =~= self.extra_factors@);
        }
        let base: i128 = self.emotional_state as i128 + self.fomo as i128 + self.market_bias as i128;
        let physical: i128 = self.hunger as i128 + self.headache_pain as i128;
        let g: i64 = self.gain_loss_yesterday;
        let pnl: i128 = if g < -100 * SCALE {
            -100 * SCALE as i128
        } else if g > 100 * SCALE {
            100 * SCALE as i128
        } else {
            g as i128
        };
        let total: i128 = (base + physical + extras) * 1_000_000 + 3 * pnl;
        div_round_to_zero(total, 300)
    }

    /// Whether no label names two extra factors.
    pub fn has_distinct_labels(&self) -> (r: bool)
        ensures
            r == labels_distinct(factors_view(self.extra_factors@)),
    {
        let n = self.extra_factors.len();
        let ghost f = factors_view(self.extra_factors@);
        let mut j: usize = 0;
        while j < n
            invariant
                n == self.extra_factors@.len(),
                f == factors_view(self.extra_factors@),
                j <= n,
                forall|a: int, b: int| 0 <= a < b < j ==> #[trigger] f[a].0 != #[trigger] f[b].0,
            decreases n - j,
        {
            let mut i: usize = 0;
            while i < j
                invariant
                    n == self.extra_factors@.len(),
                    f == factors_view(self.extra_factors@),
                    i <= j < n,
                    forall|a: int| 0 <= a < i ==> #[trigger] f[a].0 != f[j as int].0,
                decreases j - i,
            {
                if self.extra_factors[i].0 == self.extra_factors[j].0 {
                    assert(f[i as int].0 == f[j as int].0);
                    return false;
                }
                i = i + 1;
            }
            j = j + 1;
        }
        true
    }

    /// Writes the risk score of the current fields into `total_risk_score`.
    pub fn update_risk_score(&mut self)
        requires
            fits_i64(risk_score_of(*old(self))),
        ensures
            *final(self) == (PsychologicalState { total_risk_score: risk_score_of(*old(self)) as i64, ..*old(self) }),
    {
        self.total_risk_score = self.calculate_total_risk();
    }
}

impl Default for PsychologicalState {
    fn default() -> (r: PsychologicalState)
        ensures
            r.id is None,
            r.gain_loss_yesterday == 0,
            r.emotional_state == 0,
            r.fomo == 0,
            r.market_bias == 0,
            r.hunger == 0,
            r.headache_pain == 0,
            r.extra_factors@.len() == 0,
            r.total_risk_score == 0,
    {
        PsychologicalState::new()
    }
}

/// Two states that differ only in the order of their extra factors have
/// the same risk score.
pub proof fn risk_score_ignores_factor_order(s: PsychologicalState, t: PsychologicalState)
    requires
        factors_view(s.extra_factors@).to_multiset() == factors_view(t.extra_factors@).to_multiset(),
        s.gain_loss_yesterday == t.gain_loss_yesterday,
        s.emotional_state == t.emotional_state,
        s.fomo == t.fomo,
        s.market_bias == t.market_bias,
        s.hunger == t.hunger,
        s.headache_pain == t.headache_pain,
    ensures
        risk_score_of(s) == risk_score_of(t),
{
    factors_sum_permutation(factors_view(s.extra_factors@), factors_view(t.extra_factors@));
}

/// The risk score is the exact value of the formula up to one fixed-point
/// unit, rounded toward zero.
pub proof fn risk_score_rounds_toward_zero(s: PsychologicalState)
    ensures
        ({
            let exact3 = risk_millionths_times_three(s);
            let r = risk_score_of(s);
            &&& exact3 >= 0 ==> 300 * r <= exact3 < 300 * r + 300
            &&& exact3 < 0 ==> 300 * r - 300 < exact3 <= 300 * r
        }),
{
    let exact3 = risk_millionths_times_three(s);
    let a = if exact3 < 0 { -exact3 } else { exact3 };
    vstd::arithmetic::div_mod::lemma_fundamental_div_mod(a, 300);
    vstd::arithmetic::div_mod::lemma_mod_bound(a, 300);
}

/// A gain or loss of 100% or more counts as 100%, and one of -100% or less
/// as -100%: beyond those bounds it no longer moves the risk score.
pub proof fn risk_score_clamps_gain_loss(s: PsychologicalState, g: i64)
    ensures
        g >= 100 * SCALE ==> risk_score_of(PsychologicalState { gain_loss_yesterday: g, ..s })
            == risk_score_of(PsychologicalState { gain_loss_yesterday: (100 * SCALE) as i64, ..s }),
        g <= -100 * SCALE ==> risk_score_of(PsychologicalState { gain_loss_yesterday: g, ..s })
            == risk_score_of(PsychologicalState { gain_loss_yesterday: (-100 * SCALE) as i64, ..s }),
{
}

} // verus!
