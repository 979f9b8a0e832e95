use vstd::prelude::*;
use vstd::arithmetic::power2::{
    lemma2_to64,
    lemma2_to64_rest,
    lemma_pow2_adds,
    lemma_pow2_pos,
    lemma_pow2_strictly_increases,
    lemma_pow2_unfold,
    pow2,
};

verus! {

/// The most halvings a search can make: the interval's position, counted in
/// intervals of its own width, has to fit the integer that holds it.
pub const MAX_ITERATIONS: u32 = 126;

/// Upper end of the range searched for a single query.
pub const QUERY_UPPER_BOUND: u32 = 20000;

/// Halvings made for a single query.
pub const QUERY_ITERATIONS: u32 = 100;

/// Upper end of the range searched for each point of a chart.
pub const CHART_UPPER_BOUND: u32 = 50000;

/// Halvings made for each point of a chart.
pub const CHART_ITERATIONS: u32 = 60;

/// The point `numerator / 2^depth` of the way through the searched range.
#[derive(Clone, Copy, PartialEq, Eq, Debug, Structural)]
pub struct Fraction {
    pub numerator: u128,
    pub depth: u32,
}

impl Fraction {
    /// Where the point lies among the end points of the `2^total`
    /// intervals that the range is cut into after `total` halvings,
    /// counted from 0 at the start of the range.
    pub open spec fn cell(self, total: nat) -> nat {
        self.numerator as nat * pow2((total - self.depth) as nat)
    }
}

/// A search interval as a mathematical value. After `depth` halvings the
/// range is cut into `2^depth` intervals of equal width, and the search
/// stands in the one with `low` of them below it.
pub struct Interval {
    pub low: nat,
    pub depth: nat,
}

impl Interval {
    /// The whole range.
    pub open spec fn whole() -> Interval {
        Interval { low: 0, depth: 0 }
    }

    /// The half that the search goes on with once the midpoint was tried:
    /// the lower half where the midpoint is feasible, else the upper half.
    pub open spec fn narrow(self, feasible: bool) -> Interval {
        Interval {
            low: if feasible {
                2 * self.low
            } else {
                2 * self.low + 1
            },
            depth: self.depth + 1,
        }
    }

    /// The interval that a search stands in after the midpoints it tried
    /// were found feasible or not as `answers` says, in that order.
    pub open spec fn after(answers: Seq<bool>) -> Interval
        decreases answers.len(),
    {
        if answers.len() == 0 {
            Interval::whole()
        } else {
            Interval::after(answers.drop_last()).narrow(answers.last())
        }
    }

    /// Numerator of the midpoint, over `2^(depth + 1)`.
    pub open spec fn midpoint(self) -> nat {
        2 * self.low + 1
    }

    /// The midpoint as the search hands it out.
    pub open spec fn probe(self) -> Fraction {
        Fraction { numerator: self.midpoint() as u128, depth: (self.depth + 1) as u32 }
    }

    /// Numerator of the upper end, over `2^depth`.
    pub open spec fn upper(self) -> nat {
        self.low + 1
    }

    /// Whether some midpoint was feasible: the upper end is then the last
    /// such midpoint, and otherwise still the end of the range.
    pub open spec fn found(self) -> bool {
        self.upper() < pow2(self.depth)
    }

    /// The upper end where some midpoint was feasible, and nothing else.
    pub open spec fn best(self) -> Option<Fraction> {
        if self.found() {
            Some(Fraction { numerator: self.upper() as u128, depth: self.depth as u32 })
        } else {
            None
        }
    }

    /// Where the midpoint lies among the end points of the `2^total`
    /// intervals that the range is cut into after `total` halvings,
    /// counted from 0 at the start of the range.
    pub open spec fn midpoint_cell(self, total: nat) -> nat {
        self.midpoint() * pow2((total - self.depth - 1) as nat)
    }
}

/// A bisection in progress. The caller tries the midpoint that `probe`
/// names and hands the answer to `record`, until `is_done`.
pub struct Bisection {
    low: u128,
    depth: u32,
    iterations: u32,
    found: bool,
}

impl View for Bisection {
    type V = Interval;

    closed spec fn view(&self) -> Interval {
        Interval { low: self.low as nat, depth: self.depth as nat }
    }
}

proof fn lemma_pow2_fits(depth: nat)
    requires
        depth <= MAX_ITERATIONS + 1,
    ensures
        0 < pow2(depth) <= 0x8000_0000_0000_0000_0000_0000_0000_0000,
{
    lemma2_to64();
    lemma2_to64_rest();
    lemma_pow2_adds(64, 63);
    lemma_pow2_pos(depth);
    assert(pow2(127) == 0x8000_0000_0000_0000_0000_0000_0000_0000) by {
        assert(pow2(64) * pow2(63) == 0x8000_0000_0000_0000_0000_0000_0000_0000) by {
            assert(pow2(64) == 0x1_0000_0000_0000_0000);
            assert(pow2(63) == 0x8000_0000_0000_0000);
            assert(0x1_0000_0000_0000_0000 * 0x8000_0000_0000_0000
                == 0x8000_0000_0000_0000_0000_0000_0000_0000int) by (nonlinear_arith);
        }
    }
    if depth < 127 {
        lemma_pow2_strictly_increases(depth, 127);
    }
}

impl Bisection {
    #[verifier::type_invariant]
    spec fn inv(self) -> bool {
        &&& self.depth <= self.iterations <= MAX_ITERATIONS
        &&& self.low < pow2(self.depth as nat)
        &&& self.found == self@.found()
    }

    /// The number of halvings that the search makes in all.
    pub closed spec fn budget(&self) -> nat {
        self.iterations as nat
    }

    /// A search over the whole range that makes `iterations` halvings, or
    /// nothing where that is more than `MAX_ITERATIONS`.
    pub fn new(iterations: u32) -> (search: Option<Bisection>)
        ensures
            search.is_some() == (iterations <= MAX_ITERATIONS),
            search matches Some(s) ==> s@ == Interval::whole() && s.budget() == iterations,
    {
        if iterations > MAX_ITERATIONS {
            return None;
        }
        proof {
            lemma2_to64();
        }
        Some(Bisection { low: 0, depth: 0, iterations, found: false })
    }

    /// Whether all halvings were made.
    pub fn is_done(&self) -> (done: bool)
        ensures
            self@.depth <= self.budget() <= MAX_ITERATIONS,
            done == (self@.depth == self.budget()),
    {
        proof {
            use_type_invariant(self);
        }
        self.depth == self.iterations
    }

    /// The midpoint of the interval: the point to try next.
    pub fn probe(&self) -> (mid: Fraction)
        ensures
            mid == self@.probe(),
            mid.numerator == self@.midpoint(),
            mid.depth == self@.depth + 1,
    {
        proof {
            use_type_invariant(self);
            lemma_pow2_fits(self.depth as nat);
        }
        Fraction { numerator: 2 * self.low + 1, depth: self.depth + 1 }
    }

    /// Goes on with the lower half where the midpoint was feasible, and
    /// with the upper half where it was not.
    pub fn record(&mut self, feasible: bool)
        requires
            old(self)@.depth < old(self).budget(),
        ensures
            final(self)@ == old(self)@.narrow(feasible),
            final(self).budget() == old(self).budget(),
    {
        proof {
            use_type_invariant(&*self);
            lemma_pow2_fits(self.depth as nat);
            lemma_pow2_unfold((self.depth + 1) as nat);
        }
        let low: u128 = if feasible {
            2 * self.low
        } else {
            2 * self.low + 1
        };
        *self = Bisection {
            low,
            depth: self.depth + 1,
            iterations: self.iterations,
            found: self.found || feasible,
        };
    }

    /// The least point found feasible, as a fraction of the range, or
    /// nothing where no midpoint was feasible.
    pub fn best(&self) -> (point: Option<Fraction>)
        ensures
            point == self@.best(),
            point matches Some(p) ==> p.numerator == self@.upper() && p.depth == self@.depth,
    {
        proof {
            use_type_invariant(self);
            lemma_pow2_fits(self.depth as nat);
        }
        if self.found {
            Some(Fraction { numerator: self.low + 1, depth: self.depth })
        } else {
            None
        }
    }
}

/// Whether `answers` can be what `feasible` said of the midpoints of a
/// search, each midpoint following from the answers before it.
pub open spec fn answers_of<F: Fn(Fraction) -> bool>(feasible: F, answers: Seq<bool>) -> bool {
    forall|k: int|
        0 <= k < answers.len() ==> call_ensures(
            feasible,
            (Interval::after(answers.take(k)).probe(),),
            #[trigger] answers[k],
        )
}

/// Searches the range for the least feasible point by `iterations`
/// halvings, asking `feasible` about each midpoint in turn. The result is
/// what `Interval::after` and `Interval::best` make of the answers given.
pub fn search<F: Fn(Fraction) -> bool>(iterations: u32, feasible: F) -> (point: Option<Fraction>)
    requires
        iterations <= MAX_ITERATIONS,
        forall|mid: Fraction| call_requires(feasible, (mid,)),
    ensures
        exists|answers: Seq<bool>|
            #[trigger] answers_of(feasible, answers) && answers.len() == iterations && point
                == Interval::after(answers).best(),
{
    let mut state = Bisection::new(iterations).unwrap();
    let ghost mut answers: Seq<bool> = Seq::empty();
    while !state.is_done()
        invariant
            state@ == Interval::after(answers),
            state.budget() == iterations,
            answers.len() == state@.depth,
            answers_of(feasible, answers),
            forall|mid: Fraction| call_requires(feasible, (mid,)),
        decreases iterations - state@.depth,
    {
        let mid = state.probe();
        let ok = feasible(mid);
        proof {
            let longer = answers.push(ok);
            assert(longer.drop_last() == answers);
            assert(longer.take(answers.len() as int) == answers);
            assert forall|k: int| 0 <= k < longer.len() implies call_ensures(
                feasible,
                (Interval::after(longer.take(k)).probe(),),
                #[trigger] longer[k],
            ) by {
                if k < answers.len() {
                    assert(longer.take(k) == answers.take(k));
                    assert(longer[k] == answers[k]);
                }
            }
            answers = longer;
        }
        state.record(ok);
    }
    state.best()
}

/// After any answers the search stands in one of the `2^n` intervals that
/// `n` halvings cut the range into, `n` being the number of answers.
pub proof fn lemma_interval_in_range(answers: Seq<bool>)
    ensures
        Interval::after(answers).depth == answers.len(),
        Interval::after(answers).upper() <= pow2(answers.len()),
    decreases answers.len(),
{
    if answers.len() == 0 {
        lemma2_to64();
    } else {
        lemma_interval_in_range(answers.drop_last());
        lemma_pow2_unfold(answers.len());
    }
}

/// A search reports no point exactly when no midpoint was feasible: the
/// upper end of the range is never taken for an answer.
pub proof fn lemma_nothing_found_iff_never_feasible(answers: Seq<bool>)
    ensures
        Interval::after(answers).best().is_none() <==> forall|k: int|
            0 <= k < answers.len() ==> !answers[k],
    decreases answers.len(),
{
    lemma_interval_in_range(answers);
    if answers.len() == 0 {
        lemma2_to64();
    } else {
        let before = answers.drop_last();
        lemma_nothing_found_iff_never_feasible(before);
        lemma_interval_in_range(before);
        lemma_pow2_unfold(answers.len());
        if Interval::after(answers).best().is_none() {
            assert forall|k: int| 0 <= k < answers.len() implies !answers[k] by {
                if k < before.len() {
                    assert(answers[k] == before[k]);
                }
            }
        }
        if forall|k: int| 0 <= k < answers.len() ==> !answers[k] {
            assert(!answers.last());
            assert forall|k: int| 0 <= k < before.len() implies !before[k] by {
                assert(before[k] == answers[k]);
            }
        }
    }
}

/// Whether a condition on the end points of the finest intervals, once it
/// holds of a point, holds of every point above it.
pub open spec fn is_monotone(feasible: spec_fn(nat) -> bool) -> bool {
    forall|i: nat, j: nat| i <= j && #[trigger] feasible(i) ==> #[trigger] feasible(j)
}

/// Whether each answer is what `feasible` says of the midpoint that the
/// search tried at that step, the end points of the finest intervals being
/// counted from 0 at the start of the range to `2^n` at its end.
pub open spec fn answers_follow(feasible: spec_fn(nat) -> bool, answers: Seq<bool>) -> bool {
    forall|k: int|
        0 <= k < answers.len() ==> #[trigger] answers[k] == feasible(
            Interval::after(answers.take(k)).midpoint_cell(answers.len()),
        )
}

/// The two ends of the interval after the first `k` answers bracket the
/// change from infeasible to feasible, as far as they were tried.
proof fn lemma_bracket(feasible: spec_fn(nat) -> bool, answers: Seq<bool>, k: nat)
    requires
        answers_follow(feasible, answers),
        k <= answers.len(),
    ensures
        ({
            let at = Interval::after(answers.take(k as int));
            let width = pow2((answers.len() - k) as nat);
            &&& at.depth == k
            &&& at.upper() <= pow2(k)
            &&& at.low == 0 || !feasible(at.low * width)
            &&& at.upper() == pow2(k) || feasible(at.upper() * width)
        }),
    decreases k,
{
    let n = answers.len();
    let prefix = answers.take(k as int);
    lemma_interval_in_range(prefix);
    if k == 0 {
        lemma2_to64();
    } else {
        let j = (k - 1) as nat;
        let before = answers.take(j as int);
        lemma_bracket(feasible, answers, j);
        assert(prefix.drop_last() == before);
        assert(prefix.last() == answers[j as int]);
        let old_at = Interval::after(before);
        let at = Interval::after(prefix);
        assert(at == old_at.narrow(answers[j as int]));
        let width = pow2((n - k) as nat);
        let old_width = pow2((n - j) as nat);
        lemma_pow2_unfold((n - j) as nat);
        lemma_pow2_unfold(k);
        assert(old_width == 2 * width);
        assert(old_at.midpoint_cell(n) == (2 * old_at.low + 1) * width);
        assert(answers[j as int] == feasible((2 * old_at.low + 1) * width));
        assert((2 * old_at.low) * width == old_at.low * (2 * width)) by (nonlinear_arith);
        assert((2 * old_at.low + 2) * width == (old_at.low + 1) * (2 * width))
            by (nonlinear_arith);
    }
}

/// Where the condition searched for is monotone, the search finds where it
/// sets in: of the end points strictly inside the range, those from the
/// interval's upper end on are feasible and those below it are not. So the
/// point reported is the least feasible one, and none is reported exactly
/// when no point inside the range is feasible.
pub proof fn lemma_finds_least_feasible(feasible: spec_fn(nat) -> bool, answers: Seq<bool>)
    requires
        is_monotone(feasible),
        answers_follow(feasible, answers),
    ensures
        forall|j: nat|
            0 < j < pow2(answers.len()) ==> (#[trigger] feasible(j) <==> Interval::after(
                answers,
            ).upper() <= j),
        Interval::after(answers).found() ==> feasible(Interval::after(answers).upper()),
        !Interval::after(answers).found() ==> forall|j: nat|
            0 < j < pow2(answers.len()) ==> !#[trigger] feasible(j),
{
    let n = answers.len();
    lemma_bracket(feasible, answers, n);
    assert(answers.take(n as int) == answers);
    lemma2_to64();
    let end = Interval::after(answers);
    assert(end.low * 1 == end.low && end.upper() * 1 == end.upper());
    assert forall|j: nat| 0 < j < pow2(n) implies (#[trigger] feasible(j) <==> end.upper() <= j) by {
        if end.upper() <= j {
            assert(feasible(end.upper()));
        } else {
            assert(end.low != 0);
            assert(!feasible(end.low));
        }
    }
    lemma_interval_in_range(answers);
}

/// Answers that a function gave of the midpoints are answers that follow
/// the condition which the function decides.
pub proof fn lemma_answers_follow<F: Fn(Fraction) -> bool>(
    decide: F,
    feasible: spec_fn(nat) -> bool,
    answers: Seq<bool>,
)
    requires
        answers.len() <= MAX_ITERATIONS,
        answers_of(decide, answers),
        forall|mid: Fraction, answer: bool| #[trigger]
            call_ensures(decide, (mid,), answer) ==> answer == feasible(mid.cell(answers.len())),
    ensures
        answers_follow(feasible, answers),
{
    let n = answers.len();
    assert forall|k: int| 0 <= k < n implies #[trigger] answers[k] == feasible(
        Interval::after(answers.take(k)).midpoint_cell(n),
    ) by {
        let at = Interval::after(answers.take(k));
        lemma_interval_in_range(answers.take(k));
        lemma_pow2_fits(k as nat);
        assert(at.probe().numerator == at.midpoint());
        assert(at.probe().depth == k + 1);
        assert(at.probe().cell(n) == at.midpoint_cell(n));
        assert(call_ensures(decide, (at.probe(),), answers[k]));
    }
}

/// A search is determined by the condition it searches for: two runs of
/// equal length whose answers follow one condition get the same answers
/// and end with the same result.
pub proof fn lemma_search_is_determined(
    feasible: spec_fn(nat) -> bool,
    first: Seq<bool>,
    second: Seq<bool>,
)
    requires
        first.len() == second.len(),
        answers_follow(feasible, first),
        answers_follow(feasible, second),
    ensures
        first == second,
        Interval::after(first).best() == Interval::after(second).best(),
{
    lemma_same_prefix(feasible, first, second, first.len());
    assert(first.take(first.len() as int) == first);
    assert(second.take(second.len() as int) == second);
}

proof fn lemma_same_prefix(
    feasible: spec_fn(nat) -> bool,
    first: Seq<bool>,
    second: Seq<bool>,
    k: nat,
)
    requires
        first.len() == second.len(),
        answers_follow(feasible, first),
        answers_follow(feasible, second),
        k <= first.len(),
    ensures
        first.take(k as int) == second.take(k as int),
    decreases k,
{
    if k > 0 {
        let j = (k - 1) as int;
        lemma_same_prefix(feasible, first, second, j as nat);
        assert(first[j] == second[j]);
        assert(first.take(k as int) == first.take(j).push(first[j]));
        assert(second.take(k as int) == second.take(j).push(second[j]));
    }
}

} // verus!
