use vstd::prelude::*;

use crate::error::TrainError;
use crate::error::dim_mismatch;

verus! {

/// How many gradient-descent iterations one training run performs.
pub const TOTAL_ITERATIONS: usize = 1000;

/// A diagnostic loss value is due every `LOG_PERIOD`-th iteration.
pub const LOG_PERIOD: usize = 100;

/// Whether the loss is reported at iteration `i` (counted from zero, so the
/// very first iteration reports).
pub open spec fn emits_at(i: nat) -> bool {
    i % (LOG_PERIOD as nat) == 0
}

/// The gradient-descent loop's bookkeeping: the current weight vector and
/// how many iterations have run. Each scalar weight is carried as an opaque
/// 64-bit word; the numeric update itself is the caller's, and is handed in
/// one iteration at a time through [`Trainer::step`].
pub struct Trainer {
    samples: usize,
    features: usize,
    iteration: usize,
    weights: Vec<u64>,
}

impl Trainer {
    /// Row count of the design matrix, which the label vector must match.
    pub closed spec fn num_samples(self) -> nat {
        self.samples as nat
    }

    /// Column count of the design matrix, which every weight vector must
    /// match.
    pub closed spec fn num_features(self) -> nat {
        self.features as nat
    }

    /// Iterations completed so far.
    pub closed spec fn iterations_done(self) -> nat {
        self.iteration as nat
    }

    /// The current weight vector, word by word.
    pub closed spec fn weights_view(self) -> Seq<u64> {
        self.weights@
    }

    /// Shape agreement the trainer maintains throughout a run.
    pub open spec fn wf(self) -> bool {
        &&& self.weights_view().len() == self.num_features()
        &&& self.iterations_done() <= TOTAL_ITERATIONS
    }

    /// Whether the run has completed all its iterations.
    pub open spec fn done(self) -> bool {
        self.iterations_done() == TOTAL_ITERATIONS
    }

    /// Sets up a run over a `samples` by `features` design matrix, a label
    /// vector of length `labels_len`, and the initial weights. Both shape
    /// requirements of the data model are checked here, so a mismatch stops
    /// the run before any iteration: the feature count must equal the weight
    /// count, and the sample count must equal the label count.
    pub fn new(samples: usize, features: usize, labels_len: usize, init_w: Vec<u64>) -> (r:
        Result<Trainer, TrainError>)
        ensures
            features == init_w@.len() && samples == labels_len ==> (r matches Ok(t)
                && t.num_samples() == samples && t.num_features() == features
                && t.iterations_done() == 0 && t.weights_view() == init_w@ && t.wf()
                && !t.done()),
            features != init_w@.len() ==> r == Err::<Trainer, TrainError>(
                dim_mismatch(features, init_w.len()),
            ),
            features == init_w@.len() && samples != labels_len ==> r == Err::<
                Trainer,
                TrainError,
            >(dim_mismatch(samples, labels_len)),
    {
        if features != init_w.len() {
            return Err(TrainError::DimMismatch { expected: features, got: init_w.len() });
        }
        if samples != labels_len {
            return Err(TrainError::DimMismatch { expected: samples, got: labels_len });
        }
        Ok(Trainer { samples, features, iteration: 0, weights: init_w })
    }

    /// One transition of the fixed-count loop. The caller has derived the
    /// next weight vector from the current one; the trainer checks its
    /// shape, installs it, advances the iteration counter, and reports
    /// whether the iteration that just ran is one whose loss is logged. A
    /// mismatched update is rejected and leaves the state unchanged.
    pub fn step(&mut self, new_w: Vec<u64>) -> (r: Result<bool, TrainError>)
        requires
            old(self).wf(),
            !old(self).done(),
        ensures
            final(self).wf(),
            final(self).num_samples() == old(self).num_samples(),
            final(self).num_features() == old(self).num_features(),
            new_w@.len() == old(self).num_features() ==> (r == Ok::<bool, TrainError>(
                emits_at(old(self).iterations_done()),
            ) && final(self).iterations_done() == old(self).iterations_done() + 1
                && final(self).weights_view() == new_w@),
            new_w@.len() != old(self).num_features() ==> (r == Err::<bool, TrainError>(
                dim_mismatch(old(self).num_features() as usize, new_w.len()),
            ) && final(self).iterations_done() == old(self).iterations_done()
                && final(self).weights_view() == old(self).weights_view()),
    {
        if new_w.len() != self.features {
            return Err(TrainError::DimMismatch { expected: self.features, got: new_w.len() });
        }
        let emit = self.iteration % LOG_PERIOD == 0;
        self.weights = new_w;
        self.iteration = self.iteration + 1;
        Ok(emit)
    }

    /// Whether the run has completed all its iterations.
    pub fn is_done(&self) -> (r: bool)
        ensures
            r == self.done(),
    {
        self.iteration == TOTAL_ITERATIONS
    }

    /// Iterations completed so far.
    pub fn iteration(&self) -> (r: usize)
        ensures
            r == self.iterations_done(),
    {
        self.iteration
    }

    /// Read access to the current weight vector.
    pub fn weights(&self) -> (r: &Vec<u64>)
        ensures
            r@ == self.weights_view(),
    {
        &self.weights
    }

    /// Ends the run and hands the trained weight vector back.
    pub fn into_weights(self) -> (r: Vec<u64>)
        ensures
            r@ == self.weights_view(),
    {
        self.weights
    }
}

/// The weight vector a run ends with after accepting the updates in
/// `updates`, in order, starting from `w0`: each accepted update replaces
/// the weights, exactly as [`Trainer::step`] installs each accepted
/// argument.
pub open spec fn run_updates(w0: Seq<u64>, updates: Seq<Seq<u64>>) -> Seq<u64>
    decreases updates.len(),
{
    if updates.len() == 0 {
        w0
    } else {
        run_updates(updates[0], updates.subrange(1, updates.len() as int))
    }
}

/// A run's outcome in closed form: the weights a run ends with are the last
/// accepted update, or the initial weights when there was none.
pub proof fn lemma_run_updates_last(w0: Seq<u64>, updates: Seq<Seq<u64>>)
    ensures
        run_updates(w0, updates) == (if updates.len() == 0 {
            w0
        } else {
            updates.last()
        }),
    decreases updates.len(),
{
    if updates.len() > 0 {
        let rest = updates.subrange(1, updates.len() as int);
        lemma_run_updates_last(updates[0], rest);
        if rest.len() > 0 {
            assert(rest.last() == updates.last());
        }
    }
}

/// The trainer adds no randomness of its own: two runs that start from the
/// same initial weights and accept the same sequence of updates end with
/// the same weights.
pub proof fn lemma_training_deterministic(w0: Seq<u64>, u1: Seq<Seq<u64>>, u2: Seq<Seq<u64>>)
    requires
        u1 == u2,
    ensures
        run_updates(w0, u1) == run_updates(w0, u2),
{
}

/// How many of the first `n` iterations report a loss value.
pub open spec fn emit_count(n: nat) -> nat
    decreases n,
{
    if n == 0 {
        0
    } else {
        emit_count((n - 1) as nat) + (if emits_at((n - 1) as nat) {
            1nat
        } else {
            0nat
        })
    }
}

/// Within one reporting period that starts at a multiple of `LOG_PERIOD`,
/// exactly the first iteration reports.
proof fn lemma_emit_count_block(k: nat, j: nat)
    requires
        1 <= j <= LOG_PERIOD,
    ensures
        emit_count((LOG_PERIOD as nat) * k + j) == emit_count((LOG_PERIOD as nat) * k) + 1,
    decreases j,
{
    let p = LOG_PERIOD as nat;
    if j == 1 {
        vstd::arithmetic::div_mod::lemma_mod_multiples_basic(k as int, p as int);
        assert(emits_at(p * k));
    } else {
        lemma_emit_count_block(k, (j - 1) as nat);
        vstd::arithmetic::div_mod::lemma_mod_multiples_vanish(k as int, (j - 1) as int, p as int);
        vstd::arithmetic::div_mod::lemma_small_mod((j - 1) as nat, p);
        assert(!emits_at(p * k + ((j - 1) as nat)));
    }
}

/// The reporting count at every full period boundary: after `k` whole
/// periods, `k` loss values have been reported.
proof fn lemma_emit_count_multiple(k: nat)
    ensures
        emit_count((LOG_PERIOD as nat) * k) == k,
    decreases k,
{
    let p = LOG_PERIOD as nat;
    if k > 0 {
        lemma_emit_count_multiple((k - 1) as nat);
        lemma_emit_count_block((k - 1) as nat, p);
        assert(p * ((k - 1) as nat) + p == p * k) by (nonlinear_arith)
            requires
                k >= 1,
        ;
    }
}

/// Exactly ten of a run's thousand iterations report a loss value.
pub proof fn lemma_ten_loss_lines()
    ensures
        emit_count(TOTAL_ITERATIONS as nat) == 10,
{
    lemma_emit_count_multiple(10);
    assert((LOG_PERIOD as nat) * 10 == TOTAL_ITERATIONS as nat);
}

} // verus!
