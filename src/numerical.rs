//! A fixed-step explicit Euler integrator over a vector of state elements.
use vstd::prelude::*;
use vstd::std_specs::ops::{AddSpec, MulSpec};

verus! {

/// `+` on `T` and `*` of a `T` by `dt` follow vstd's specifications.
pub open spec fn obeys_step_arith<T: core::ops::Mul<S, Output = T> + core::ops::Add<Output = T>, S>() -> bool {
    <T as AddSpec<T>>::obeys_add_spec() && <T as MulSpec<S>>::obeys_mul_spec()
}

/// `x + y` and `x * dt` are defined for every `x` and `y` (they never panic).
pub open spec fn total_step_arith<T: core::ops::Mul<S, Output = T> + core::ops::Add<Output = T>, S>(
    dt: S,
) -> bool {
    &&& forall|x: T| #[trigger] x.mul_req(dt)
    &&& forall|x: T, y: T| #[trigger] x.add_req(y)
}

/// Every multiplication and addition of an Euler step from `state` with `derivatives`
/// is defined, for a `T` whose arithmetic follows vstd's specifications.
pub open spec fn step_defined<T: core::ops::Mul<S, Output = T> + core::ops::Add<Output = T>, S>(
    state: Seq<T>,
    derivatives: Seq<T>,
    dt: S,
) -> bool {
    forall|i: int|
        0 <= i < state.len() ==> #[trigger] derivatives[i].mul_req(dt) && state[i].add_req(
            derivatives[i].mul_spec(dt),
        )
}

/// One explicit Euler step: element `i` becomes `state[i] + derivatives[i] * dt`.
pub open spec fn euler_step<T: core::ops::Mul<S, Output = T> + core::ops::Add<Output = T>, S>(
    state: Seq<T>,
    derivatives: Seq<T>,
    dt: S,
) -> Seq<T> {
    Seq::new(state.len(), |i: int| state[i].add_spec(derivatives[i].mul_spec(dt)))
}

/// `n` Euler steps from `state` with the same `derivatives` at every step.
pub open spec fn euler_steps<T: core::ops::Mul<S, Output = T> + core::ops::Add<Output = T>, S>(
    state: Seq<T>,
    derivatives: Seq<T>,
    dt: S,
    n: nat,
) -> Seq<T>
    decreases n,
{
    if n == 0 {
        state
    } else {
        euler_step(euler_steps(state, derivatives, dt, (n - 1) as nat), derivatives, dt)
    }
}

/// Advances a state vector by explicit Euler steps. `derivative_func` maps a state to
/// its element-wise derivative; `derivatives` holds the last derivative computed.
#[verifier::reject_recursive_types(T)]
pub struct EulerSolver<T, F: Fn(&Vec<T>) -> Vec<T>> {
    pub state: Vec<T>,
    pub derivatives: Vec<T>,
    pub derivative_func: F,
}

impl<T: Copy, F: Fn(&Vec<T>) -> Vec<T>> EulerSolver<T, F> {
    /// A solver at `initial_state`; the derivative buffer starts as a copy of it.
    pub fn new(initial_state: Vec<T>, derivative_func: F) -> (r: Self)
        ensures
            r.state@ == initial_state@,
            r.derivatives@ == initial_state@,
            r.derivative_func == derivative_func,
    {
        let mut state: Vec<T> = Vec::new();
        let mut i: usize = 0;
        while i < initial_state.len()
            invariant
                i <= initial_state.len(),
                state@ == initial_state@.subrange(0, i as int),
            decreases initial_state.len() - i,
        {
            state.push(initial_state[i]);
            i = i + 1;
        }
        assert(state@ == initial_state@);
        EulerSolver { state, derivatives: initial_state, derivative_func }
    }

    /// Calls the derivative function once on the current state, then replaces each
    /// element `i`, in index order, by `state[i] + derivatives[i] * dt`.
    pub fn step<S: Copy>(&mut self, dt: S)
        where
            T: core::ops::Mul<S, Output = T> + core::ops::Add<Output = T>,
        requires
            total_step_arith::<T, S>(dt) || (obeys_step_arith::<T, S>() && forall|d: Vec<T>|
                call_ensures(old(self).derivative_func, (&old(self).state,), d) ==> step_defined(
                    old(self).state@,
                    d@,
                    dt,
                )),
            call_requires(old(self).derivative_func, (&old(self).state,)),
            forall|d: Vec<T>|
                call_ensures(old(self).derivative_func, (&old(self).state,), d) ==> d.len()
                    == old(self).state.len(),
        ensures
            final(self).derivative_func == old(self).derivative_func,
            call_ensures(old(self).derivative_func, (&old(self).state,), final(self).derivatives),
            final(self).state.len() == old(self).state.len(),
            obeys_step_arith::<T, S>() ==> final(self).state@ == euler_step(
                old(self).state@,
                final(self).derivatives@,
                dt,
            ),
    {
        self.derivatives = (self.derivative_func)(&self.state);
        let ghost start = self.state@;
        let n = self.state.len();
        let mut i: usize = 0;
        while i < n
            invariant
                total_step_arith::<T, S>(dt) || (obeys_step_arith::<T, S>() && step_defined(
                    start,
                    self.derivatives@,
                    dt,
                )),
                self.derivative_func == old(self).derivative_func,
                call_ensures(old(self).derivative_func, (&old(self).state,), self.derivatives),
                start == old(self).state@,
                n == start.len(),
                n == self.derivatives.len(),
                self.state.len() == n,
                i <= n,
                obeys_step_arith::<T, S>() ==> forall|k: int|
                    0 <= k < i ==> #[trigger] self.state@[k] == start[k].add_spec(
                        self.derivatives@[k].mul_spec(dt),
                    ),
                forall|k: int| i <= k < n ==> #[trigger] self.state@[k] == start[k],
            decreases n - i,
        {
            proof {
                if !total_step_arith::<T, S>(dt) {
                    assert(step_defined(start, self.derivatives@, dt));
                    assert(self.state@[i as int] == start[i as int]);
                    assert(self.derivatives@[i as int].mul_req(dt));
                    assert(start[i as int].add_req(self.derivatives@[i as int].mul_spec(dt)));
                }
            }
            let v = self.state[i] + self.derivatives[i] * dt;
            self.state.set(i, v);
            i = i + 1;
        }
        assert(obeys_step_arith::<T, S>() ==> self.state@ == euler_step(
            start,
            self.derivatives@,
            dt,
        ));
    }
}

/// With a constant derivative, Euler steps accumulate linearly: after `n` steps, element `i`
/// of a 64-bit integer state is `state[i] + n * (derivatives[i] * dt)`, as long as every
/// intermediate value stays within `i64`.
pub proof fn lemma_constant_derivative_accumulates(
    state: Seq<i64>,
    derivatives: Seq<i64>,
    dt: i64,
    n: nat,
)
    requires
        state.len() == derivatives.len(),
        forall|i: int|
            0 <= i < state.len() ==> {
                &&& i64::MIN <= #[trigger] derivatives[i] * dt <= i64::MAX
                &&& i64::MIN <= state[i] + n * (derivatives[i] * dt) <= i64::MAX
            },
    ensures
        euler_steps(state, derivatives, dt, n).len() == state.len(),
        forall|i: int|
            0 <= i < state.len() ==> #[trigger] euler_steps(state, derivatives, dt, n)[i] == state[i]
                + n * (derivatives[i] * dt),
    decreases n,
{
    if n == 0 {
        assert forall|i: int| 0 <= i < state.len() implies #[trigger] euler_steps(
            state,
            derivatives,
            dt,
            n,
        )[i] == state[i] + n * (derivatives[i] * dt) by {
            assert(n * (derivatives[i] * dt) == 0);
        }
    } else {
        let m = (n - 1) as nat;
        assert forall|i: int| 0 <= i < state.len() implies i64::MIN <= state[i] + m * (
        #[trigger] derivatives[i] * dt) <= i64::MAX by {
            let p = derivatives[i] * dt;
            let s0 = state[i] as int;
            assert(i64::MIN <= s0 + n * p <= i64::MAX);
            assert(i64::MIN <= s0 <= i64::MAX);
            assert(i64::MIN <= s0 + m * p <= i64::MAX) by (nonlinear_arith)
                requires
                    n == m + 1,
                    i64::MIN <= s0 + n * p <= i64::MAX,
                    i64::MIN <= s0 <= i64::MAX,
            ;
        }
        lemma_constant_derivative_accumulates(state, derivatives, dt, m);
        let prev = euler_steps(state, derivatives, dt, m);
        assert forall|i: int| 0 <= i < state.len() implies #[trigger] euler_steps(
            state,
            derivatives,
            dt,
            n,
        )[i] == state[i] + n * (derivatives[i] * dt) by {
            assert(prev[i] == state[i] + m * (derivatives[i] * dt));
            assert(euler_steps(state, derivatives, dt, n) == euler_step(prev, derivatives, dt));
            assert(derivatives[i].mul_spec(dt) == derivatives[i] * dt);
            assert(euler_step(prev, derivatives, dt)[i] == prev[i].add_spec(
                derivatives[i].mul_spec(dt),
            ));
            assert(i64::MIN <= state[i] + n * (derivatives[i] * dt) <= i64::MAX);
            assert(i64::MIN <= derivatives[i] * dt <= i64::MAX);
            assert(state[i] + m * (derivatives[i] * dt) + derivatives[i] * dt == state[i] + n * (
            derivatives[i] * dt)) by (nonlinear_arith)
                requires
                    n == m + 1,
            ;
        }
    }
}

} // verus!
