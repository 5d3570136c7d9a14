//! Rolling config push: batch-by-batch deployment with validation after
//! each batch. Never push to every instance at once: each batch is
//! validated before the next one starts, and a failed validation rolls the
//! batch back and, by default, stops the push.
//!
//! `RollingPush` plans the batches and decides after each one; the caller
//! performs the pushes, validations and rollbacks it asks for.

use vstd::prelude::*;
use crate::text::{decimal, owned, push_decimal, push_str, str_equal};
use crate::sources::now_millis;

verus! {

// ─── Types ───────────────────────────────────────────────────────────────────

/// A target instance for config push.
#[derive(Debug, Clone)]
pub struct Instance {
    pub instance_id: String,
    pub account_id: String,
}

/// Outcome of pushing config to a single instance. Times are milliseconds
/// since the Unix epoch.
#[derive(Debug, Clone)]
pub struct InstancePushResult {
    pub instance_id: String,
    pub success: bool,
    pub error: Option<String>,
    pub applied_at: Option<i64>,
}

/// Outcome of one batch.
#[derive(Debug, Clone)]
pub struct BatchResult {
    pub batch_number: usize,
    pub total_batches: usize,
    pub instance_results: Vec<InstancePushResult>,
    pub validation_passed: bool,
    pub completed_at: i64,
}

/// Validation result for a batch after push.
#[derive(Debug, Clone)]
pub struct BatchValidation {
    pub batch_number: usize,
    pub instances_checked: usize,
    pub instances_valid: usize,
    pub instances_invalid: usize,
    pub errors: Vec<ValidationError>,
    pub passed: bool,
}

#[derive(Debug, Clone)]
pub struct ValidationError {
    pub instance_id: String,
    pub error: String,
}

/// Full result of a rolling push across all batches.
#[derive(Debug, Clone)]
pub struct RollingPushResult {
    pub config_name: String,
    pub total_instances: usize,
    pub batch_size: usize,
    pub total_batches: usize,
    pub batch_results: Vec<BatchResult>,
    pub rollbacks_triggered: usize,
    pub overall_success: bool,
    pub completed_at: i64,
}

// ─── Counting ────────────────────────────────────────────────────────────────

/// Number of successful pushes in `rs`.
pub open spec fn successes(rs: Seq<InstancePushResult>) -> nat
    decreases rs.len(),
{
    if rs.len() == 0 { 0 } else { successes(rs.drop_last()) + (if rs.last().success { 1nat } else { 0nat }) }
}

proof fn lemma_successes_le(rs: Seq<InstancePushResult>)
    ensures
        successes(rs) <= rs.len(),
    decreases rs.len(),
{
    if rs.len() > 0 {
        lemma_successes_le(rs.drop_last());
    }
}

/// Pushes applied over all batches.
pub open spec fn applied_total(bs: Seq<BatchResult>) -> nat
    decreases bs.len(),
{
    if bs.len() == 0 { 0 } else { applied_total(bs.drop_last()) + successes(bs.last().instance_results@) }
}

/// Pushes failed over all batches.
pub open spec fn failed_total(bs: Seq<BatchResult>) -> nat
    decreases bs.len(),
{
    if bs.len() == 0 {
        0
    } else {
        failed_total(bs.drop_last()) + (bs.last().instance_results@.len() - successes(bs.last().instance_results@)) as nat
    }
}

/// Instances pushed over all batches.
pub open spec fn pushed_total(bs: Seq<BatchResult>) -> nat
    decreases bs.len(),
{
    if bs.len() == 0 { 0 } else { pushed_total(bs.drop_last()) + bs.last().instance_results@.len() }
}

proof fn lemma_totals(bs: Seq<BatchResult>)
    ensures
        applied_total(bs) + failed_total(bs) == pushed_total(bs),
    decreases bs.len(),
{
    if bs.len() > 0 {
        lemma_totals(bs.drop_last());
        lemma_successes_le(bs.last().instance_results@);
    }
}

fn count_successes(rs: &Vec<InstancePushResult>) -> (n: usize)
    ensures
        n == successes(rs@),
{
    let mut n: usize = 0;
    let mut i: usize = 0;
    while i < rs.len()
        invariant
            i <= rs@.len(),
            n == successes(rs@.take(i as int)),
            n <= i,
        decreases rs@.len() - i,
    {
        proof {
            assert(rs@.take(i + 1).drop_last() =~= rs@.take(i as int));
        }
        if rs[i].success {
            n = n + 1;
        }
        i = i + 1;
    }
    assert(rs@.take(rs@.len() as int) =~= rs@);
    n
}

/// Progress line of a finished batch.
pub open spec fn progress_text(number: nat, total: nat, size: nat, ok: nat, failed: nat) -> Seq<char> {
    "Batch "@ + decimal(number) + "/"@ + decimal(total) + " ("@ + decimal(size)
        + " instances): "@ + decimal(ok) + " applied, "@ + decimal(failed)
        + " config validation error(s)."@
}

impl BatchResult {
    pub fn success_count(&self) -> (n: usize)
        ensures
            n == successes(self.instance_results@),
    {
        count_successes(&self.instance_results)
    }

    pub fn failure_count(&self) -> (n: usize)
        ensures
            n == self.instance_results@.len() - successes(self.instance_results@),
    {
        let ok = count_successes(&self.instance_results);
        proof {
            lemma_successes_le(self.instance_results@);
        }
        self.instance_results.len() - ok
    }

    /// Human-readable progress line: `Batch n/total (size instances): ok
    /// applied, failed config validation error(s).`
    pub fn progress_line(&self) -> (s: String)
        ensures
            s@ == progress_text(self.batch_number as nat, self.total_batches as nat,
                self.instance_results@.len(), successes(self.instance_results@),
                (self.instance_results@.len() - successes(self.instance_results@)) as nat),
    {
        let ok = self.success_count();
        let failed = self.failure_count();
        let mut s = owned("Batch ");
        push_decimal(&mut s, self.batch_number as u64);
        push_str(&mut s, "/");
        push_decimal(&mut s, self.total_batches as u64);
        push_str(&mut s, " (");
        push_decimal(&mut s, self.instance_results.len() as u64);
        push_str(&mut s, " instances): ");
        push_decimal(&mut s, ok as u64);
        push_str(&mut s, " applied, ");
        push_decimal(&mut s, failed as u64);
        push_str(&mut s, " config validation error(s).");
        s
    }
}

/// Summary line of a rolling push for the Commander.
pub open spec fn summary_text(applied: nat, total: nat, failed: nat, rollbacks: nat, success: bool) -> Seq<char> {
    "Rolling push complete: "@ + decimal(applied) + "/"@ + decimal(total) + " applied, "@
        + decimal(failed) + " failed, "@ + decimal(rollbacks) + " rollbacks. "@
        + (if success { "SUCCESS."@ } else { "PARTIAL — manual review required."@ })
}

proof fn lemma_prefix_totals(bs: Seq<BatchResult>, i: int)
    requires
        0 <= i <= bs.len(),
    ensures
        applied_total(bs.take(i)) <= applied_total(bs),
        failed_total(bs.take(i)) <= failed_total(bs),
        pushed_total(bs.take(i)) <= pushed_total(bs),
    decreases bs.len() - i,
{
    if i < bs.len() {
        lemma_prefix_totals(bs, i + 1);
        assert(bs.take(i + 1).drop_last() =~= bs.take(i));
        lemma_successes_le(bs[i].instance_results@);
    } else {
        assert(bs.take(i) =~= bs);
    }
}

impl RollingPushResult {
    /// Pushes applied over all batches.
    pub fn total_applied(&self) -> (n: usize)
        requires
            pushed_total(self.batch_results@) <= usize::MAX,
        ensures
            n == applied_total(self.batch_results@),
    {
        proof {
            lemma_totals(self.batch_results@);
        }
        let mut n: usize = 0;
        let mut i: usize = 0;
        while i < self.batch_results.len()
            invariant
                i <= self.batch_results@.len(),
                n == applied_total(self.batch_results@.take(i as int)),
                applied_total(self.batch_results@) <= usize::MAX,
            decreases self.batch_results@.len() - i,
        {
            proof {
                assert(self.batch_results@.take(i + 1).drop_last() =~= self.batch_results@.take(i as int));
                lemma_prefix_totals(self.batch_results@, i + 1);
            }
            let k = self.batch_results[i].success_count();
            n = n + k;
            i = i + 1;
        }
        assert(self.batch_results@.take(self.batch_results@.len() as int) =~= self.batch_results@);
        n
    }

    /// Pushes failed over all batches.
    pub fn total_failed(&self) -> (n: usize)
        requires
            pushed_total(self.batch_results@) <= usize::MAX,
        ensures
            n == failed_total(self.batch_results@),
    {
        proof {
            lemma_totals(self.batch_results@);
        }
        let mut n: usize = 0;
        let mut i: usize = 0;
        while i < self.batch_results.len()
            invariant
                i <= self.batch_results@.len(),
                n == failed_total(self.batch_results@.take(i as int)),
                failed_total(self.batch_results@) <= usize::MAX,
            decreases self.batch_results@.len() - i,
        {
            proof {
                assert(self.batch_results@.take(i + 1).drop_last() =~= self.batch_results@.take(i as int));
                lemma_prefix_totals(self.batch_results@, i + 1);
            }
            let k = self.batch_results[i].failure_count();
            n = n + k;
            i = i + 1;
        }
        assert(self.batch_results@.take(self.batch_results@.len() as int) =~= self.batch_results@);
        n
    }

    /// Summary line: applied over total, failed, rollbacks, and the verdict.
    pub fn summary(&self) -> (s: String)
        requires
            pushed_total(self.batch_results@) <= usize::MAX,
        ensures
            s@ == summary_text(applied_total(self.batch_results@), self.total_instances as nat,
                failed_total(self.batch_results@), self.rollbacks_triggered as nat, self.overall_success),
    {
        let applied = self.total_applied();
        let failed = self.total_failed();
        let mut s = owned("Rolling push complete: ");
        push_decimal(&mut s, applied as u64);
        push_str(&mut s, "/");
        push_decimal(&mut s, self.total_instances as u64);
        push_str(&mut s, " applied, ");
        push_decimal(&mut s, failed as u64);
        push_str(&mut s, " failed, ");
        push_decimal(&mut s, self.rollbacks_triggered as u64);
        push_str(&mut s, " rollbacks. ");
        push_str(&mut s, if self.overall_success { "SUCCESS." } else { "PARTIAL — manual review required." });
        s
    }
}

// ─── Validation ──────────────────────────────────────────────────────────────

/// Why the config read back from an instance is wrong, if it is: none
/// found, or not the expected one. Configs are compared as JSON text.
pub open spec fn config_problem(expected: Seq<char>, actual: Option<String>) -> Option<Seq<char>> {
    match actual {
        None => Some("config not found after push"@),
        Some(cfg) => if cfg@ == expected { None } else { Some("config mismatch — malformed existing config"@) },
    }
}

/// The validation errors of the first `k` instances of a batch, in order.
pub open spec fn batch_errors(batch: Seq<Instance>, expected: Seq<char>, actual: Seq<Option<String>>, k: int)
    -> Seq<(Seq<char>, Seq<char>)>
    decreases k,
{
    if k <= 0 {
        Seq::empty()
    } else {
        let before = batch_errors(batch, expected, actual, k - 1);
        match config_problem(expected, actual[k - 1]) {
            Some(m) => before.push((batch[k - 1].instance_id@, m)),
            None => before,
        }
    }
}

/// Instance ids and messages of validation errors.
pub open spec fn error_views(es: Seq<ValidationError>) -> Seq<(Seq<char>, Seq<char>)> {
    es.map_values(|e: ValidationError| (e.instance_id@, e.error@))
}

/// Validates a batch after a config push: each instance, paired with the
/// config read back from it (as JSON text), must hold `expected_config`.
/// Instances beyond the configs given, and configs beyond the batch, are
/// not checked.
pub fn validate_batch(batch: &[Instance], expected_config: &str, actual_configs: &[Option<String>]) -> (v: BatchValidation)
    ensures
        ({
            let k = if batch@.len() < actual_configs@.len() { batch@.len() } else { actual_configs@.len() };
            let errs = batch_errors(batch@, expected_config@, actual_configs@, k as int);
            &&& error_views(v.errors@) == errs
            &&& v.batch_number == 0
            &&& v.instances_checked == batch@.len()
            &&& v.instances_invalid == errs.len()
            &&& v.instances_valid == (if batch@.len() >= errs.len() { batch@.len() - errs.len() } else { 0 })
            &&& v.passed == (errs.len() == 0)
        }),
{
    let k = if batch.len() < actual_configs.len() { batch.len() } else { actual_configs.len() };
    let mut errors: Vec<ValidationError> = Vec::new();
    let mut i: usize = 0;
    while i < k
        invariant
            k <= batch@.len(),
            k <= actual_configs@.len(),
            i <= k,
            error_views(errors@) == batch_errors(batch@, expected_config@, actual_configs@, i as int),
            errors@.len() <= i,
        decreases k - i,
    {
        let ghost before = errors@;
        match &actual_configs[i] {
            None => {
                errors.push(ValidationError {
                    instance_id: batch[i].instance_id.clone(),
                    error: owned("config not found after push"),
                });
            },
            Some(cfg) => {
                if !str_equal(cfg.as_str(), expected_config) {
                    errors.push(ValidationError {
                        instance_id: batch[i].instance_id.clone(),
                        error: owned("config mismatch — malformed existing config"),
                    });
                }
            },
        }
        assert(error_views(errors@) =~= batch_errors(batch@, expected_config@, actual_configs@, i + 1));
        i = i + 1;
    }
    let invalid = errors.len();
    let valid = if batch.len() >= invalid { batch.len() - invalid } else { 0 };
    BatchValidation {
        batch_number: 0,
        instances_checked: batch.len(),
        instances_valid: valid,
        instances_invalid: invalid,
        errors,
        passed: invalid == 0,
    }
}

// ─── Planning and running ────────────────────────────────────────────────────

/// A rolling push: the config (as JSON text), its targets and the batch size.
#[derive(Debug, Clone)]
pub struct RollingPush {
    pub config_name: String,
    pub config_payload: String,
    pub instances: Vec<Instance>,
    pub batch_size: usize,
    pub stop_on_validation_failure: bool,
}

/// Number of batches of `batch_size` needed for `n` instances.
pub open spec fn batch_count(n: nat, batch_size: nat) -> nat
    recommends
        batch_size > 0,
{
    if n % batch_size == 0 { n / batch_size } else { n / batch_size + 1 }
}

/// Number of batches that failed validation.
pub open spec fn failures(bs: Seq<BatchResult>) -> nat
    decreases bs.len(),
{
    if bs.len() == 0 { 0 } else { failures(bs.drop_last()) + (if bs.last().validation_passed { 0nat } else { 1nat }) }
}

proof fn lemma_failures_le(bs: Seq<BatchResult>)
    ensures
        failures(bs) <= bs.len(),
    decreases bs.len(),
{
    if bs.len() > 0 {
        lemma_failures_le(bs.drop_last());
    }
}

/// The instance range `[start, end)` of the batch after `done` batches:
/// `batch_size` long or up to the last instance; none when every instance
/// was pushed or the run stopped.
pub open spec fn planned_batch(push: RollingPush, done: nat, stopped: bool) -> Option<(int, int)> {
    let n = push.instances@.len() as int;
    let s = done * push.batch_size;
    if stopped || s >= n {
        None
    } else {
        Some((s, if s + push.batch_size <= n { s + push.batch_size } else { n }))
    }
}

/// Batches of `batch_size` cover `n` instances: the last planned batch
/// starts before the last instance and the batches reach it.
pub proof fn lemma_batches_cover(n: nat, batch_size: nat)
    requires
        batch_size > 0,
        n > 0,
    ensures
        (batch_count(n, batch_size) - 1) * batch_size < n,
        n <= batch_count(n, batch_size) * batch_size,
{
    let q = n / batch_size;
    let r = n % batch_size;
    vstd::arithmetic::div_mod::lemma_fundamental_div_mod(n as int, batch_size as int);
    if r == 0 {
        assert(q >= 1) by (nonlinear_arith)
            requires
                n > 0,
                n == batch_size * q,
        {}
        assert((q - 1) * batch_size < n) by (nonlinear_arith)
            requires
                batch_size > 0,
                n == batch_size * q,
        {}
        assert(n <= q * batch_size) by (nonlinear_arith)
            requires
                n == batch_size * q,
        {}
    } else {
        assert(q * batch_size < n) by (nonlinear_arith)
            requires
                n == batch_size * q + r,
                r > 0,
        {}
        assert(n <= (q + 1) * batch_size) by (nonlinear_arith)
            requires
                n == batch_size * q + r,
                r < batch_size,
        {}
    }
}

/// Progress of a rolling push: the batches done so far.
pub struct RollingPushRun {
    batch_results: Vec<BatchResult>,
    rollbacks_triggered: usize,
    overall_success: bool,
    stopped: bool,
}

impl RollingPushRun {
    /// Results of the batches done, in order.
    pub closed spec fn batches(&self) -> Seq<BatchResult> {
        self.batch_results@
    }

    /// Whether the push stopped after a failed validation.
    pub closed spec fn stopped(&self) -> bool {
        self.stopped
    }

    /// What every run of `push` keeps: batches numbered from 1, one rollback
    /// per failed batch, success only with no failure, and a stop only after
    /// a failure when stopping is asked for.
    pub closed spec fn valid_for(&self, push: RollingPush) -> bool {
        let bs = self.batch_results@;
        &&& push.batch_size > 0
        &&& forall|k: int| 0 <= k < bs.len() ==> #[trigger] bs[k].batch_number == k + 1
            && bs[k].total_batches == batch_count(push.instances@.len(), push.batch_size as nat)
        &&& self.rollbacks_triggered == failures(bs)
        &&& self.overall_success == (failures(bs) == 0)
        &&& self.stopped ==> push.stop_on_validation_failure && failures(bs) > 0
        &&& bs.len() * push.batch_size <= push.instances@.len() + push.batch_size
        &&& bs.len() <= batch_count(push.instances@.len(), push.batch_size as nat)
    }
}

proof fn lemma_next_batch_exists(done: int, n: int, bs: int)
    requires
        bs > 0,
        done >= 0,
        done * bs < n,
    ensures
        done + 1 <= batch_count(n as nat, bs as nat),
        (done + 1) * bs <= n + bs,
        done + 1 <= n,
{
    assert(done <= done * bs) by (nonlinear_arith)
        requires
            bs > 0,
            done >= 0,
    {}
    let q = n / bs;
    let r = n % bs;
    vstd::arithmetic::div_mod::lemma_fundamental_div_mod(n, bs);
    assert(0 <= r < bs);
    assert(done <= q) by (nonlinear_arith)
        requires
            bs > 0,
            done * bs < n,
            n == bs * q + r,
            r < bs,
    {
        if done > q {
            assert(done >= q + 1);
            assert(done * bs >= (q + 1) * bs);
        }
    }
    if r == 0 {
        assert(done < q) by (nonlinear_arith)
            requires
                bs > 0,
                done * bs < n,
                n == bs * q,
                done <= q,
        {
            if done == q {
                assert(done * bs == n);
            }
        }
    }
    assert((done + 1) * bs <= n + bs) by (nonlinear_arith)
        requires
            done * bs < n,
    {}
}

impl RollingPush {
    /// A rolling push; a batch size of 0 is taken as 1. Pushes stop at the
    /// first failed validation.
    pub fn new(config_name: String, config_payload: String, instances: Vec<Instance>, batch_size: usize) -> (r: Self)
        ensures
            r.config_name == config_name,
            r.config_payload == config_payload,
            r.instances@ == instances@,
            r.batch_size == (if batch_size == 0 { 1 } else { batch_size }),
            r.stop_on_validation_failure,
    {
        RollingPush {
            config_name,
            config_payload,
            instances,
            batch_size: if batch_size == 0 { 1 } else { batch_size },
            stop_on_validation_failure: true,
        }
    }

    /// Total batch count.
    pub fn total_batches(&self) -> (b: usize)
        requires
            self.batch_size > 0,
        ensures
            b == batch_count(self.instances@.len(), self.batch_size as nat),
    {
        let n = self.instances.len();
        let bs = self.batch_size;
        if n % bs == 0 {
            n / bs
        } else {
            assert(n / bs < n) by (nonlinear_arith)
                requires
                    bs > 0,
                    n % bs != 0,
            {
                assert(n % bs < bs);
            }
            n / bs + 1
        }
    }

    /// A run with no batch done.
    pub fn start(&self) -> (run: RollingPushRun)
        requires
            self.batch_size > 0,
        ensures
            run.valid_for(*self),
            run.batches().len() == 0,
            !run.stopped(),
    {
        RollingPushRun {
            batch_results: Vec::new(),
            rollbacks_triggered: 0,
            overall_success: true,
            stopped: false,
        }
    }

    /// The instance range `[start, end)` of the next batch: the batch after
    /// those done, at most `batch_size` long; `None` when every instance
    /// was pushed or the run stopped after a failed validation.
    pub fn next_batch(&self, run: &RollingPushRun) -> (r: Option<(usize, usize)>)
        requires
            run.valid_for(*self),
        ensures
            match r {
                None => planned_batch(*self, run.batches().len(), run.stopped()) is None,
                Some((s, e)) => planned_batch(*self, run.batches().len(), run.stopped()) == Some((s as int, e as int)),
            },
    {
        proof {
            assert(run.batch_results@.len() * self.batch_size <= self.instances@.len() + self.batch_size);
        }
        if run.stopped {
            return None;
        }
        let done = run.batch_results.len();
        let n = self.instances.len();
        let bs = self.batch_size;
        if done > n / bs {
            assert(done * bs >= n) by (nonlinear_arith)
                requires
                    bs > 0,
                    done >= n / bs + 1,
            {
                assert(n < (n / bs + 1) * bs);
            }
            return None;
        }
        assert(done * bs <= n) by (nonlinear_arith)
            requires
                bs > 0,
                done <= n / bs,
        {
            assert((n / bs) * bs <= n);
        }
        let s = done * bs;
        if s >= n {
            return None;
        }
        let e = if n - s >= bs { s + bs } else { n };
        Some((s, e))
    }

    /// Records the next batch's outcome; returns whether the batch must be
    /// rolled back, that is whether its validation failed.
    pub fn record_batch(&self, run: &mut RollingPushRun, instance_results: Vec<InstancePushResult>,
        validation_passed: bool, completed_at: i64) -> (rollback: bool)
        requires
            old(run).valid_for(*self),
            !old(run).stopped(),
            old(run).batches().len() * self.batch_size < self.instances@.len(),
        ensures
            final(run).valid_for(*self),
            rollback == !validation_passed,
            final(run).batches().len() == old(run).batches().len() + 1,
            final(run).batches().drop_last() == old(run).batches(),
            final(run).batches().last().batch_number == old(run).batches().len() + 1,
            final(run).batches().last().total_batches == batch_count(self.instances@.len(), self.batch_size as nat),
            final(run).batches().last().instance_results@ == instance_results@,
            final(run).batches().last().validation_passed == validation_passed,
            final(run).batches().last().completed_at == completed_at,
            final(run).stopped() == (!validation_passed && self.stop_on_validation_failure),
    {
        let total = self.total_batches();
        proof {
            lemma_next_batch_exists(run.batch_results@.len() as int, self.instances@.len() as int,
                self.batch_size as int);
            lemma_failures_le(run.batch_results@);
        }
        let number = run.batch_results.len() + 1;
        let ghost before = run.batch_results@;
        run.batch_results.push(BatchResult {
            batch_number: number,
            total_batches: total,
            instance_results,
            validation_passed,
            completed_at,
        });
        proof {
            assert(run.batch_results@.drop_last() =~= before);
        }
        if !validation_passed {
            run.overall_success = false;
            run.rollbacks_triggered = run.rollbacks_triggered + 1;
            if self.stop_on_validation_failure {
                run.stopped = true;
            }
        }
        !validation_passed
    }

    /// The result of a finished run.
    pub fn finish(&self, run: RollingPushRun, completed_at: i64) -> (r: RollingPushResult)
        requires
            run.valid_for(*self),
        ensures
            r.config_name == self.config_name,
            r.total_instances == self.instances@.len(),
            r.batch_size == self.batch_size,
            r.total_batches == batch_count(self.instances@.len(), self.batch_size as nat),
            r.batch_results@ == run.batches(),
            r.rollbacks_triggered == failures(r.batch_results@),
            r.overall_success == (failures(r.batch_results@) == 0),
            r.completed_at == completed_at,
    {
        RollingPushResult {
            config_name: self.config_name.clone(),
            total_instances: self.instances.len(),
            batch_size: self.batch_size,
            total_batches: self.total_batches(),
            batch_results: run.batch_results,
            rollbacks_triggered: run.rollbacks_triggered,
            overall_success: run.overall_success,
            completed_at,
        }
    }
}

/// Whether `bs` is what a finished run of `push` recorded: the batches are
/// numbered in order; the run went on after a failed validation only when
/// it is not to stop; and it ended after the last batch or, when it is to
/// stop, at the first failed one.
pub open spec fn run_finished(push: RollingPush, bs: Seq<BatchResult>) -> bool {
    let n = push.instances@.len();
    let total = batch_count(n, push.batch_size as nat);
    &&& forall|k: int| 0 <= k < bs.len() ==> #[trigger] bs[k].batch_number == k + 1
        && bs[k].total_batches == total
    &&& forall|k: int| 0 <= k < bs.len() - 1 ==> (#[trigger] bs[k].validation_passed || !push.stop_on_validation_failure)
    &&& (bs.len() == total || (push.stop_on_validation_failure && bs.len() > 0 && !bs.last().validation_passed))
}

proof fn lemma_batch_count_exact(len: int, n: int, bs: int)
    requires
        bs > 0,
        len >= 0,
        n >= 0,
        len * bs >= n,
        len == 0 || (len - 1) * bs < n,
    ensures
        len == batch_count(n as nat, bs as nat),
{
    if len == 0 {
        assert(n == 0);
    } else {
        assert((n % bs == 0 && len == n / bs) || (n % bs != 0 && len == n / bs + 1)) by (nonlinear_arith)
            requires
                bs > 0,
                len >= 1,
                n >= 0,
                len * bs >= n,
                (len - 1) * bs < n,
        {
            let q = n / bs;
            let r = n % bs;
            assert(n == q * bs + r);
            assert(0 <= r < bs);
            if len > q + 1 {
                assert((len - 1) * bs >= (q + 1) * bs);
            }
            if len < q {
                assert(len * bs <= (q - 1) * bs);
            }
            if len == q + 1 && r == 0 {
                assert((len - 1) * bs == n);
            }
            if len == q && r != 0 {
                assert(len * bs == q * bs);
            }
        }
    }
}

impl RollingPush {
    /// Runs the push batch by batch: `push_fn` pushes the payload to a
    /// batch, `validate_fn` checks it, and `rollback_fn` undoes a batch
    /// whose validation failed; the run stops at the first failure when it
    /// is to stop on one. Each batch is stamped with the time it finished.
    pub fn execute<P, V, R>(&self, mut push_fn: P, mut validate_fn: V, mut rollback_fn: R) -> (r: RollingPushResult)
        where
            P: FnMut(&[Instance], &str) -> Vec<InstancePushResult>,
            V: FnMut(&[Instance]) -> BatchValidation,
            R: FnMut(&[Instance], &str),
        requires
            self.batch_size > 0,
            forall|f: P, a: &[Instance], b: &str| call_requires(f, (a, b)),
            forall|f: V, a: &[Instance]| call_requires(f, (a,)),
            forall|f: R, a: &[Instance], b: &str| call_requires(f, (a, b)),
        ensures
            r.config_name == self.config_name,
            r.total_instances == self.instances@.len(),
            r.batch_size == self.batch_size,
            r.total_batches == batch_count(self.instances@.len(), self.batch_size as nat),
            run_finished(*self, r.batch_results@),
            r.rollbacks_triggered == failures(r.batch_results@),
            r.overall_success == (failures(r.batch_results@) == 0),
    {
        let mut run = self.start();
        loop
            invariant
                self.batch_size > 0,
                run.valid_for(*self),
                forall|f: P, a: &[Instance], b: &str| call_requires(f, (a, b)),
                forall|f: V, a: &[Instance]| call_requires(f, (a,)),
                forall|f: R, a: &[Instance], b: &str| call_requires(f, (a, b)),
                forall|k: int| 0 <= k < run.batches().len() - 1
                    ==> (#[trigger] run.batches()[k].validation_passed || !self.stop_on_validation_failure),
                run.stopped() == (self.stop_on_validation_failure && run.batches().len() > 0
                    && !run.batches().last().validation_passed),
                run.batches().len() == 0 || (run.batches().len() - 1) * self.batch_size < self.instances@.len(),
            ensures
                run.valid_for(*self),
                run_finished(*self, run.batches()),
            decreases batch_count(self.instances@.len(), self.batch_size as nat) - run.batches().len(),
        {
            let next = self.next_batch(&run);
            let (s, e) = match next {
                None => {
                    proof {
                        if !run.stopped() {
                            lemma_batch_count_exact(run.batches().len() as int, self.instances@.len() as int,
                                self.batch_size as int);
                        }
                    }
                    break;
                },
                Some(range) => range,
            };
            let chunk = &self.instances.as_slice()[s..e];
            let results = push_fn(chunk, self.config_payload.as_str());
            let validation = validate_fn(chunk);
            let ghost before = run.batches();
            let rollback = self.record_batch(&mut run, results, validation.passed, now_millis());
            if rollback {
                rollback_fn(chunk, self.config_payload.as_str());
            }
            proof {
                assert forall|k: int| 0 <= k < run.batches().len() - 1
                    implies (#[trigger] run.batches()[k].validation_passed || !self.stop_on_validation_failure) by {
                    assert(run.batches()[k] == before[k]);
                }
            }
        }
        self.finish(run, now_millis())
    }
}

} // verus!
