//! Retrying with exponential backoff.
//!
//! A policy bounds the number of calls of an operation and fixes the delays
//! between them. The delay before the first retry is the initial delay; each
//! later delay is the one before it times the multiplier; no delay is longer
//! than the ceiling. The multiplier is held in thousandths, so that `2000`
//! doubles and `1500` grows by half, and a product is rounded down to whole
//! milliseconds.

use vstd::prelude::*;

verus! {

/// How often an operation is called, and how long to wait between the calls.
#[derive(Debug, Clone, Copy, PartialEq, Eq, Structural)]
pub struct RetryPolicy {
    /// The delay before the first retry, in milliseconds.
    pub initial_delay_ms: u64,
    /// The factor from one delay to the next, in thousandths.
    pub multiplier_permille: u64,
    /// The number of calls after which no retry is made.
    pub max_attempts: u32,
    /// The longest delay, in milliseconds.
    pub max_delay_ms: u64,
}

/// Where a run of retries stands: how many calls have failed, and the delay
/// before the next call.
#[derive(Debug, Clone, Copy, PartialEq, Eq, Structural)]
pub struct RetryState {
    pub failures: u32,
    pub delay_ms: u64,
}

/// What to do after a failed call.
#[derive(Debug, Clone, Copy, PartialEq, Eq, Structural)]
pub enum RetryStep {
    /// The calls are used up: the failure of the last call is the result.
    GiveUp,
    /// Wait for `delay_ms` milliseconds, then call again.
    Wait { delay_ms: u64 },
}

/// How a scripted run of retries ends.
pub struct RunView {
    /// The number of calls made.
    pub calls: nat,
    /// Whether the last call succeeded. Where it did not, its failure is the
    /// result of the run.
    pub succeeded: bool,
    /// The number of waits made: one after each failed call that another
    /// call was to follow.
    pub waits: nat,
}

/// How a run against a script ended.
#[derive(Debug)]
pub struct ScriptedRun<T, E> {
    /// What the last call returned: the result of the run. `None` where the
    /// script was empty and no call was made.
    pub result: Option<Result<T, E>>,
    /// The number of calls made.
    pub calls: usize,
    /// The waits made, in order, in milliseconds.
    pub waits: Vec<u64>,
}

/// Which outcomes of a script are successes.
pub open spec fn successes<T, E>(outcomes: Seq<Result<T, E>>) -> Seq<bool> {
    outcomes.map_values(|r: Result<T, E>| r is Ok)
}

/// The outcome of the last of `calls` calls of a script, where a call was
/// made.
pub open spec fn last_outcome<T, E>(outcomes: Seq<Result<T, E>>, calls: int) -> Option<
    Result<T, E>,
> {
    if 0 < calls <= outcomes.len() {
        Some(outcomes[calls - 1])
    } else {
        None
    }
}

pub open spec fn min_nat(a: nat, b: nat) -> nat {
    if a <= b {
        a
    } else {
        b
    }
}

/// `delay` times a factor in thousandths, rounded down.
pub open spec fn scaled(delay: nat, permille: nat) -> nat {
    delay * permille / 1000
}

/// `base` to the power `k`.
pub open spec fn power(base: nat, k: nat) -> nat
    decreases k,
{
    if k == 0 {
        1
    } else {
        base * power(base, (k - 1) as nat)
    }
}

impl RetryPolicy {
    /// A policy as it is meant: the multiplier is at least one, and at least
    /// one call is made.
    pub open spec fn valid(self) -> bool {
        self.multiplier_permille >= 1000 && self.max_attempts >= 1
    }

    /// The delay that follows `delay_ms`.
    pub open spec fn following(self, delay_ms: nat) -> nat {
        min_nat(scaled(delay_ms, self.multiplier_permille as nat), self.max_delay_ms as nat)
    }

    /// The delay before retry number `k`, counted from zero.
    pub open spec fn delay_at(self, k: nat) -> nat
        decreases k,
    {
        if k == 0 {
            min_nat(self.initial_delay_ms as nat, self.max_delay_ms as nat)
        } else {
            self.following(self.delay_at((k - 1) as nat))
        }
    }

    /// The state before the first call.
    pub open spec fn initial(self) -> RetryState {
        RetryState { failures: 0, delay_ms: self.delay_at(0) as u64 }
    }

    /// Whether one more failed call uses up the calls.
    pub open spec fn exhausted(self, state: RetryState) -> bool {
        state.failures + 1 >= self.max_attempts
    }

    /// The state after one more failed call: the failure is counted, and the
    /// delay moves on where another call follows. The count stops at
    /// `u32::MAX`.
    pub open spec fn advanced(self, state: RetryState) -> RetryState {
        RetryState {
            failures: if state.failures < u32::MAX {
                (state.failures + 1) as u32
            } else {
                state.failures
            },
            delay_ms: if self.exhausted(state) {
                state.delay_ms
            } else {
                self.following(state.delay_ms as nat) as u64
            },
        }
    }

    /// What follows one more failed call.
    pub open spec fn decided(self, state: RetryState) -> RetryStep {
        if self.exhausted(state) {
            RetryStep::GiveUp
        } else {
            RetryStep::Wait { delay_ms: state.delay_ms }
        }
    }

    /// A run in which call number `i` succeeds where `outcomes[i]` holds,
    /// taken up at call number `from` in state `state`. A run whose script
    /// ends before the run does counts as failed there, after the wait that
    /// followed the last call of the script.
    pub open spec fn run_from(self, state: RetryState, outcomes: Seq<bool>, from: nat) -> RunView
        decreases outcomes.len() - from,
    {
        if from >= outcomes.len() {
            RunView { calls: from, succeeded: false, waits: from }
        } else if outcomes[from as int] {
            RunView { calls: from + 1, succeeded: true, waits: from }
        } else if self.decided(state) is GiveUp {
            RunView { calls: from + 1, succeeded: false, waits: from }
        } else {
            self.run_from(self.advanced(state), outcomes, from + 1)
        }
    }

    /// A whole run against a script of outcomes.
    pub open spec fn run(self, outcomes: Seq<bool>) -> RunView {
        self.run_from(self.initial(), outcomes, 0)
    }

    pub fn is_valid(&self) -> (r: bool)
        ensures
            r == self.valid(),
    {
        self.multiplier_permille >= 1000 && self.max_attempts >= 1
    }

    /// The delay before the first retry.
    pub fn first_delay(&self) -> (r: u64)
        ensures
            r == self.delay_at(0),
    {
        if self.initial_delay_ms <= self.max_delay_ms {
            self.initial_delay_ms
        } else {
            self.max_delay_ms
        }
    }

    /// The delay that follows a delay of `delay_ms`.
    pub fn next_delay(&self, delay_ms: u64) -> (r: u64)
        ensures
            r == self.following(delay_ms as nat),
    {
        let wide: u128 = delay_ms as u128;
        let factor: u128 = self.multiplier_permille as u128;
        assert(wide * factor <= 0xFFFF_FFFF_FFFF_FFFF * 0xFFFF_FFFF_FFFF_FFFF) by (nonlinear_arith)
            requires
                wide <= 0xFFFF_FFFF_FFFF_FFFF,
                factor <= 0xFFFF_FFFF_FFFF_FFFF,
        ;
        let product: u128 = wide * factor / 1000;
        if product <= self.max_delay_ms as u128 {
            product as u64
        } else {
            self.max_delay_ms
        }
    }

    /// The delay before retry number `k`, counted from zero.
    pub fn delay_before_retry(&self, k: u32) -> (r: u64)
        ensures
            r == self.delay_at(k as nat),
    {
        let mut delay: u64 = self.first_delay();
        let mut i: u32 = 0;
        while i < k
            invariant
                i <= k,
                delay == self.delay_at(i as nat),
            decreases k - i,
        {
            delay = self.next_delay(delay);
            i += 1;
        }
        delay
    }

    /// The state before the first call.
    pub fn begin(&self) -> (s: RetryState)
        ensures
            s == self.initial(),
    {
        RetryState { failures: 0, delay_ms: self.first_delay() }
    }

    /// Records a failed call and says what follows: a wait of the current
    /// delay, or the end of the run where this was the last call allowed.
    pub fn on_failure(&self, state: &mut RetryState) -> (step: RetryStep)
        ensures
            step == self.decided(*old(state)),
            *final(state) == self.advanced(*old(state)),
    {
        if state.failures == u32::MAX {
            return RetryStep::GiveUp;
        }
        state.failures = state.failures + 1;
        if state.failures >= self.max_attempts {
            RetryStep::GiveUp
        } else {
            let delay_ms = state.delay_ms;
            state.delay_ms = self.next_delay(delay_ms);
            RetryStep::Wait { delay_ms }
        }
    }
}

impl Default for RetryPolicy {
    /// One second at first, doubling, at most four calls, at most a minute.
    fn default() -> (p: RetryPolicy)
        ensures
            p.initial_delay_ms == 1000,
            p.multiplier_permille == 2000,
            p.max_attempts == 4,
            p.max_delay_ms == 60000,
            p.valid(),
    {
        RetryPolicy {
            initial_delay_ms: 1000,
            multiplier_permille: 2000,
            max_attempts: 4,
            max_delay_ms: 60000,
        }
    }
}

/// Calls `operation` until it succeeds or the policy's calls are used up, and
/// calls `pause` with the delay in milliseconds before each retry.
///
/// The result is what the last call returned: the first success, or the
/// failure of the call after which the policy gave up. What the operation
/// does is its own, so of the result no more is stated than that the
/// operation returned it; `run_script` is the same loop against a script of
/// outcomes, and its contract says how many calls and which waits are made.
pub fn run_with_retry<T, E, Op: Fn() -> Result<T, E>, Pause: Fn(u64)>(
    policy: &RetryPolicy,
    operation: Op,
    pause: Pause,
) -> (r: Result<T, E>)
    requires
        call_requires(operation, ()),
        forall|delay_ms: u64| call_requires(pause, (delay_ms,)),
    ensures
        call_ensures(operation, (), r),
{
    let mut state = policy.begin();
    loop
        invariant
            call_requires(operation, ()),
            forall|delay_ms: u64| call_requires(pause, (delay_ms,)),
            state.failures == 0 || state.failures < policy.max_attempts,
        decreases
                (if state.failures < policy.max_attempts {
                    policy.max_attempts - state.failures
                } else {
                    0
                }),
    {
        match operation() {
            Ok(value) => {
                return Ok(value);
            },
            Err(error) => {
                match policy.on_failure(&mut state) {
                    RetryStep::GiveUp => {
                        return Err(error);
                    },
                    RetryStep::Wait { delay_ms } => {
                        pause(delay_ms);
                    },
                }
            },
        }
    }
}

/// Runs the policy against a script: call number `i` returns `outcomes[i]`.
///
/// The run is the policy's run on the script: it makes the calls that `run`
/// counts and ends as `run` says. Its result is what the last call returned,
/// so a run that gives up hands back the failure of its last call and of no
/// earlier one. Its waits are the policy's delays, from the first on.
pub fn run_script<T, E>(policy: &RetryPolicy, outcomes: Vec<Result<T, E>>) -> (r: ScriptedRun<T, E>)
    ensures
        r.calls == policy.run(successes(outcomes@)).calls,
        r.waits@.len() == policy.run(successes(outcomes@)).waits,
        forall|i: int| 0 <= i < r.waits@.len() ==> r.waits@[i] == policy.delay_at(i as nat),
        r.result == last_outcome(outcomes@, r.calls as int),
        policy.run(successes(outcomes@)).succeeded == (r.result matches Some(x) && x is Ok),
{
    let ghost script = successes(outcomes@);
    let mut list = outcomes;
    let mut state = policy.begin();
    let mut waits: Vec<u64> = Vec::new();
    let mut i: usize = 0;
    while i < list.len()
        invariant
            list@ == outcomes@,
            script == successes(outcomes@),
            i <= list.len(),
            state.failures == i,
            state.delay_ms == policy.delay_at(i as nat),
            policy.run(script) == policy.run_from(state, script, i as nat),
            waits@.len() == i,
            forall|j: int| 0 <= j < i ==> waits@[j] == policy.delay_at(j as nat),
            forall|j: int| 0 <= j < i ==> !script[j],
        decreases list.len() - i,
    {
        assert(script[i as int] == (outcomes@[i as int] is Ok));
        if list[i].is_ok() {
            let last = list.remove(i);
            return ScriptedRun { result: Some(last), calls: i + 1, waits };
        }
        proof {
            if policy.decided(state) is Wait {
                lemma_state_holds_delay(*policy, state);
            }
        }
        match policy.on_failure(&mut state) {
            RetryStep::GiveUp => {
                let last = list.remove(i);
                return ScriptedRun { result: Some(last), calls: i + 1, waits };
            },
            RetryStep::Wait { delay_ms } => {
                waits.push(delay_ms);
                i += 1;
            },
        }
    }
    if i == 0 {
        ScriptedRun { result: None, calls: 0, waits }
    } else {
        let last = list.remove(i - 1);
        assert(script[i - 1] == (outcomes@[i - 1] is Ok));
        ScriptedRun { result: Some(last), calls: i, waits }
    }
}

proof fn lemma_scaled_grows(delay: nat, permille: nat)
    requires
        permille >= 1000,
    ensures
        scaled(delay, permille) >= delay,
{
    assert(delay * permille >= delay * 1000) by (nonlinear_arith)
        requires
            permille >= 1000,
    ;
}

proof fn lemma_scaled_whole(delay: nat, factor: nat)
    ensures
        scaled(delay, factor * 1000) == delay * factor,
{
    assert(delay * (factor * 1000) == (delay * factor) * 1000) by (nonlinear_arith);
}

/// No delay is longer than the ceiling.
pub proof fn lemma_delay_capped(policy: RetryPolicy, k: nat)
    ensures
        policy.delay_at(k) <= policy.max_delay_ms,
{
}

/// The delays never shrink: each is at least the one before it.
pub proof fn lemma_delays_non_decreasing(policy: RetryPolicy, k: nat)
    requires
        policy.valid(),
    ensures
        policy.delay_at(k) <= policy.delay_at(k + 1),
{
    lemma_delay_capped(policy, k);
    lemma_scaled_grows(policy.delay_at(k), policy.multiplier_permille as nat);
}

/// With a whole multiplier the delay before retry `k` is the initial delay
/// times the multiplier to the power `k`, or the ceiling if that is less.
pub proof fn lemma_delay_closed_form(policy: RetryPolicy, factor: nat, k: nat)
    requires
        factor >= 1,
        policy.multiplier_permille == factor * 1000,
    ensures
        policy.delay_at(k) == min_nat(
            policy.initial_delay_ms as nat * power(factor, k),
            policy.max_delay_ms as nat,
        ),
    decreases k,
{
    let first = policy.initial_delay_ms as nat;
    let ceiling = policy.max_delay_ms as nat;
    if k == 0 {
        assert(first * power(factor, 0) == first) by (nonlinear_arith)
            requires
                power(factor, 0) == 1,
        ;
    } else {
        let before = (k - 1) as nat;
        lemma_delay_closed_form(policy, factor, before);
        let full = first * power(factor, before);
        let held = policy.delay_at(before);
        lemma_scaled_whole(held, factor);
        assert(policy.delay_at(k) == min_nat(held * factor, ceiling));
        assert(first * power(factor, k) == full * factor) by (nonlinear_arith)
            requires
                power(factor, k) == factor * power(factor, before),
                full == first * power(factor, before),
        ;
        if full > ceiling {
            assert(ceiling * factor >= ceiling) by (nonlinear_arith)
                requires
                    factor >= 1,
            ;
            assert(full * factor >= full) by (nonlinear_arith)
                requires
                    factor >= 1,
            ;
        }
    }
}

/// One step of the delays in whole milliseconds: the next delay is the product
/// of the delay and the multiplier, rounded down by less than a millisecond,
/// or the ceiling where the product is more.
pub proof fn lemma_step_rounds_down(policy: RetryPolicy, delay_ms: nat)
    ensures
        policy.following(delay_ms) * 1000 <= delay_ms * policy.multiplier_permille,
        policy.following(delay_ms) == policy.max_delay_ms || delay_ms * policy.multiplier_permille
            < (policy.following(delay_ms) + 1) * 1000,
{
}

/// With any multiplier, whole or not, the delay before retry `k` is at most
/// the initial delay times the multiplier to the power `k`: rounding down
/// never lengthens a delay. Both sides are written in thousandths to the
/// power `k`.
pub proof fn lemma_delay_at_most_product(policy: RetryPolicy, k: nat)
    ensures
        policy.delay_at(k) * power(1000, k) <= policy.initial_delay_ms * power(
            policy.multiplier_permille as nat,
            k,
        ),
    decreases k,
{
    let first = policy.initial_delay_ms as nat;
    let factor = policy.multiplier_permille as nat;
    if k == 0 {
        assert(policy.delay_at(0) * power(1000, 0) == policy.delay_at(0)) by (nonlinear_arith)
            requires
                power(1000, 0) == 1,
        ;
        assert(first * power(factor, 0) == first) by (nonlinear_arith)
            requires
                power(factor, 0) == 1,
        ;
    } else {
        let before = (k - 1) as nat;
        lemma_delay_at_most_product(policy, before);
        lemma_step_rounds_down(policy, policy.delay_at(before));
        let held = policy.delay_at(before);
        let next = policy.delay_at(k);
        let unit = power(1000, before);
        let grown = power(factor, before);
        assert(next * (1000 * unit) <= first * (factor * grown)) by (nonlinear_arith)
            requires
                next * 1000 <= held * factor,
                held * unit <= first * grown,
        {
            assert(next * 1000 * unit <= held * factor * unit);
            assert(held * unit * factor <= first * grown * factor);
        }
    }
}

/// In a run, the state after `n` failed calls holds the delay before retry
/// `n`: the waits of a run are the policy's delays, in order.
pub proof fn lemma_state_holds_delay(policy: RetryPolicy, state: RetryState)
    requires
        state.delay_ms == policy.delay_at(state.failures as nat),
        policy.decided(state) is Wait,
    ensures
        policy.initial().delay_ms == policy.delay_at(0),
        policy.decided(state) == (RetryStep::Wait {
            delay_ms: policy.delay_at(state.failures as nat) as u64,
        }),
        policy.advanced(state).failures == state.failures + 1,
        policy.advanced(state).delay_ms == policy.delay_at(state.failures as nat + 1),
{
    lemma_delay_capped(policy, 0);
    lemma_delay_capped(policy, state.failures as nat + 1);
}

proof fn lemma_run_after_failures(policy: RetryPolicy, outcomes: Seq<bool>, state: RetryState, from: nat, k: nat)
    requires
        state.failures == from,
        from <= k < outcomes.len(),
        k < policy.max_attempts,
        forall|j: int| from <= j < k ==> !outcomes[j],
        outcomes[k as int],
    ensures
        policy.run_from(state, outcomes, from) == (RunView {
            calls: k + 1,
            succeeded: true,
            waits: k,
        }),
    decreases k - from,
{
    if from < k {
        lemma_run_after_failures(policy, outcomes, policy.advanced(state), from + 1, k);
    }
}

proof fn lemma_run_all_failures(policy: RetryPolicy, outcomes: Seq<bool>, state: RetryState, from: nat)
    requires
        state.failures == from,
        from < policy.max_attempts <= outcomes.len(),
        forall|j: int| from <= j < policy.max_attempts ==> !outcomes[j],
    ensures
        policy.run_from(state, outcomes, from) == (RunView {
            calls: policy.max_attempts as nat,
            succeeded: false,
            waits: (policy.max_attempts - 1) as nat,
        }),
    decreases policy.max_attempts - from,
{
    if from + 1 < policy.max_attempts {
        lemma_run_all_failures(policy, outcomes, policy.advanced(state), from + 1);
    }
}

proof fn lemma_run_bounded_from(policy: RetryPolicy, outcomes: Seq<bool>, state: RetryState, from: nat)
    requires
        state.failures == from,
        from == 0 || from < policy.max_attempts,
        from <= outcomes.len(),
    ensures
        policy.run_from(state, outcomes, from).calls <= outcomes.len(),
        policy.run_from(state, outcomes, from).calls <= policy.max_attempts || policy.run_from(
            state,
            outcomes,
            from,
        ).calls <= 1,
    decreases outcomes.len() - from,
{
    if from < outcomes.len() && !outcomes[from as int] && policy.decided(state) is Wait {
        lemma_run_bounded_from(policy, outcomes, policy.advanced(state), from + 1);
    }
}

/// The number of calls allowed bounds the calls of every run, whatever the
/// operation does; one call is made even where none is allowed.
pub proof fn lemma_calls_are_bounded(policy: RetryPolicy, outcomes: Seq<bool>)
    ensures
        policy.run(outcomes).calls <= policy.max_attempts || policy.run(outcomes).calls <= 1,
        policy.run(outcomes).calls <= outcomes.len(),
{
    lemma_run_bounded_from(policy, outcomes, policy.initial(), 0);
}

/// An operation that fails `k` times and then succeeds, with `k` less than
/// the number of calls allowed, is called `k + 1` times, with a wait after
/// each failure, and the run succeeds.
pub proof fn lemma_succeeds_after_failures(policy: RetryPolicy, outcomes: Seq<bool>, k: nat)
    requires
        k < policy.max_attempts,
        k < outcomes.len(),
        forall|j: int| 0 <= j < k ==> !outcomes[j],
        outcomes[k as int],
    ensures
        policy.run(outcomes) == (RunView { calls: k + 1, succeeded: true, waits: k }),
{
    lemma_run_after_failures(policy, outcomes, policy.initial(), 0, k);
}

/// An operation that always fails is called as often as the policy allows and
/// no more, with a wait between the calls, and the run ends with the failure
/// of the last call.
pub proof fn lemma_gives_up_after_max_attempts(policy: RetryPolicy, outcomes: Seq<bool>)
    requires
        policy.max_attempts >= 1,
        outcomes.len() >= policy.max_attempts,
        forall|j: int| 0 <= j < policy.max_attempts ==> !outcomes[j],
    ensures
        policy.run(outcomes) == (RunView {
            calls: policy.max_attempts as nat,
            succeeded: false,
            waits: (policy.max_attempts - 1) as nat,
        }),
{
    lemma_run_all_failures(policy, outcomes, policy.initial(), 0);
}

} // verus!
