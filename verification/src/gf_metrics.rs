//! The fleet metrics aggregator's classifications: instance status counts,
//! idle-account and downsize decisions, and provider recommendations by
//! score. Averages and percentiles of usage are floating point and are the
//! caller's.

use vstd::prelude::*;
use vstd::string::*;
use crate::gf_proto::InstanceTier;
use crate::text::str_equal;

verus! {

/// What to do with an idle account.
#[derive(Debug, Clone, Copy, PartialEq, Eq, Structural)]
pub enum IdleAction {
    /// 14–30 days idle — flag for review.
    Flag,
    /// 30+ days idle — recommend teardown with archive.
    TeardownWithArchive,
    /// Accounts that are never flagged.
    Exempt,
}

/// Confidence of a tier recommendation by amount of data.
#[derive(Debug, Clone, Copy, PartialEq, Eq, Structural)]
pub enum RecommendationConfidence {
    Low,
    Medium,
    High,
}

/// Provider recommendation by performance score.
#[derive(Debug, Clone, Copy, PartialEq, Eq, Structural)]
pub enum ProviderRecommendation {
    Primary,
    PrimaryOk,
    StandbyOnly,
    Pause,
    Emergency,
}

/// Lifecycle status of an instance in the aggregator.
#[derive(Debug, Clone, Copy, PartialEq, Eq, Structural)]
pub enum InstanceStatus {
    Active,
    Degraded,
    Failed,
    Bootstrapping,
    Creating,
    Idle,
}

// ─── Status counts ───────────────────────────────────────────────────────────

/// An instance as the status counts see it.
pub struct StatusEntry {
    pub status: InstanceStatus,
    pub role: String,
}

/// Counts of instances by status.
#[derive(Debug, Clone, Copy, PartialEq, Eq, Structural)]
pub struct StatusCounts {
    pub total_instances: u32,
    pub active_pairs: u32,
    pub degraded_instances: u32,
    pub failed_instances: u32,
    pub bootstrapping_instances: u32,
}

/// How many entries of `s` satisfy `p`.
pub open spec fn count_where(s: Seq<StatusEntry>, p: spec_fn(StatusEntry) -> bool) -> nat
    decreases s.len(),
{
    if s.len() == 0 {
        0
    } else {
        count_where(s.drop_last(), p) + if p(s.last()) { 1nat } else { 0nat }
    }
}

/// An active primary: one per active pair.
pub open spec fn active_primary(e: StatusEntry) -> bool {
    e.status == InstanceStatus::Active && e.role@ == "primary"@
}

/// Degraded.
pub open spec fn degraded(e: StatusEntry) -> bool {
    e.status == InstanceStatus::Degraded
}

/// Failed.
pub open spec fn failed(e: StatusEntry) -> bool {
    e.status == InstanceStatus::Failed
}

/// Being created or bootstrapped.
pub open spec fn starting(e: StatusEntry) -> bool {
    e.status == InstanceStatus::Bootstrapping || e.status == InstanceStatus::Creating
}

proof fn lemma_count_le(s: Seq<StatusEntry>, p: spec_fn(StatusEntry) -> bool)
    ensures
        count_where(s, p) <= s.len(),
    decreases s.len(),
{
    if s.len() > 0 {
        lemma_count_le(s.drop_last(), p);
    }
}

/// The fleet's counts: all instances, active pairs (active primaries),
/// degraded, failed, and bootstrapping or being created.
pub fn count_statuses(entries: &[StatusEntry]) -> (c: StatusCounts)
    requires
        entries@.len() <= u32::MAX,
    ensures
        c.total_instances == entries@.len(),
        c.active_pairs == count_where(entries@, |e: StatusEntry| active_primary(e)),
        c.degraded_instances == count_where(entries@, |e: StatusEntry| degraded(e)),
        c.failed_instances == count_where(entries@, |e: StatusEntry| failed(e)),
        c.bootstrapping_instances == count_where(entries@, |e: StatusEntry| starting(e)),
{
    let ghost pa = |e: StatusEntry| active_primary(e);
    let ghost pd = |e: StatusEntry| degraded(e);
    let ghost pf = |e: StatusEntry| failed(e);
    let ghost pb = |e: StatusEntry| starting(e);
    let mut c = StatusCounts {
        total_instances: 0,
        active_pairs: 0,
        degraded_instances: 0,
        failed_instances: 0,
        bootstrapping_instances: 0,
    };
    let mut i: usize = 0;
    while i < entries.len()
        invariant
            i <= entries@.len(),
            entries@.len() <= u32::MAX,
            c.total_instances == i,
            c.active_pairs == count_where(entries@.take(i as int), pa),
            c.degraded_instances == count_where(entries@.take(i as int), pd),
            c.failed_instances == count_where(entries@.take(i as int), pf),
            c.bootstrapping_instances == count_where(entries@.take(i as int), pb),
            pa == (|e: StatusEntry| active_primary(e)),
            pd == (|e: StatusEntry| degraded(e)),
            pf == (|e: StatusEntry| failed(e)),
            pb == (|e: StatusEntry| starting(e)),
        decreases entries@.len() - i,
    {
        let ghost t = entries@.take(i as int + 1);
        assert(t.drop_last() =~= entries@.take(i as int));
        proof {
            lemma_count_le(entries@.take(i as int), pa);
            lemma_count_le(entries@.take(i as int), pd);
            lemma_count_le(entries@.take(i as int), pf);
            lemma_count_le(entries@.take(i as int), pb);
        }
        let e = &entries[i];
        c.total_instances = c.total_instances + 1;
        match e.status {
            InstanceStatus::Active => {
                if str_equal(e.role.as_str(), "primary") {
                    c.active_pairs = c.active_pairs + 1;
                }
            },
            InstanceStatus::Degraded => {
                c.degraded_instances = c.degraded_instances + 1;
            },
            InstanceStatus::Failed => {
                c.failed_instances = c.failed_instances + 1;
            },
            InstanceStatus::Bootstrapping | InstanceStatus::Creating => {
                c.bootstrapping_instances = c.bootstrapping_instances + 1;
            },
            InstanceStatus::Idle => {},
        }
        i = i + 1;
    }
    assert(entries@.take(entries@.len() as int) =~= entries@);
    c
}

// ─── Provider and data classifications ───────────────────────────────────────

/// The recommendation for a provider's score: primary from 85, acceptable
/// primary from 75, standby only from 65, else pause new provisions.
pub open spec fn recommendation_for(score: u8) -> ProviderRecommendation {
    if score >= 85 {
        ProviderRecommendation::Primary
    } else if score >= 75 {
        ProviderRecommendation::PrimaryOk
    } else if score >= 65 {
        ProviderRecommendation::StandbyOnly
    } else {
        ProviderRecommendation::Pause
    }
}

/// Classifies a provider score.
pub fn provider_recommendation(score: u8) -> (r: ProviderRecommendation)
    ensures
        r == recommendation_for(score),
{
    if score >= 85 {
        ProviderRecommendation::Primary
    } else if score >= 75 {
        ProviderRecommendation::PrimaryOk
    } else if score >= 65 {
        ProviderRecommendation::StandbyOnly
    } else {
        ProviderRecommendation::Pause
    }
}

/// A better score never gets a weaker recommendation.
pub proof fn lemma_recommendation_monotone(a: u8, b: u8)
    requires
        a <= b,
    ensures
        recommendation_for(a) == ProviderRecommendation::Primary ==> recommendation_for(b) == ProviderRecommendation::Primary,
        recommendation_for(b) == ProviderRecommendation::Pause ==> recommendation_for(a) == ProviderRecommendation::Pause,
{
}

/// How far a tier recommendation can be trusted from the number of hourly
/// reports: a week of them is high, three days medium, less is too little.
pub fn data_confidence(reports: usize) -> (r: Option<RecommendationConfidence>)
    ensures
        r == (if reports >= 168 {
            Some(RecommendationConfidence::High)
        } else if reports >= 72 {
            Some(RecommendationConfidence::Medium)
        } else {
            None::<RecommendationConfidence>
        }),
{
    if reports >= 168 {
        Some(RecommendationConfidence::High)
    } else if reports >= 72 {
        Some(RecommendationConfidence::Medium)
    } else {
        None
    }
}

/// The tier one step down from a configured tier and the monthly saving in
/// dollars; none for `nano` and for unknown tiers.
pub open spec fn downsize_step(tier: Seq<char>) -> Option<(InstanceTier, InstanceTier, u32)> {
    if tier == "standard"@ {
        Some((InstanceTier::Standard, InstanceTier::Nano, 8))
    } else if tier == "pro"@ {
        Some((InstanceTier::Pro, InstanceTier::Standard, 12))
    } else if tier == "enterprise"@ {
        Some((InstanceTier::Enterprise, InstanceTier::Pro, 24))
    } else {
        None
    }
}

/// The current tier, the tier to move to and the monthly saving in dollars.
pub fn downsize_recommendation(tier: &str) -> (r: Option<(InstanceTier, InstanceTier, u32)>)
    ensures
        r == downsize_step(tier@),
{
    if str_equal(tier, "standard") {
        Some((InstanceTier::Standard, InstanceTier::Nano, 8))
    } else if str_equal(tier, "pro") {
        Some((InstanceTier::Pro, InstanceTier::Standard, 12))
    } else if str_equal(tier, "enterprise") {
        Some((InstanceTier::Enterprise, InstanceTier::Pro, 24))
    } else {
        None
    }
}

/// Milliseconds in a day.
pub const DAY_MS: i64 = 86_400_000;

/// Whole days from `then` to `now` (rounded toward zero).
pub open spec fn whole_days(then: i64, now: i64) -> int {
    let d = now - then;
    if d >= 0 { d / (DAY_MS as int) } else { -((-d) / (DAY_MS as int)) }
}

/// The idle decision for a primary last active at `last_activity`, at
/// `now`, with an idle limit of `idle_days`: nothing while it was active
/// within the limit, else teardown with archive, with the whole days idle.
pub fn idle_decision(last_activity: Option<i64>, now: i64, idle_days: u32) -> (r: Option<(IdleAction, i64)>)
    requires
        i64::MIN / 2 <= now <= i64::MAX / 2,
        last_activity matches Some(t) ==> i64::MIN / 2 <= t <= i64::MAX / 2,
    ensures
        match last_activity {
            None => r is None,
            Some(t) => if t >= now - (idle_days as int) * (DAY_MS as int) {
                r is None
            } else {
                r == Some((IdleAction::TeardownWithArchive, whole_days(t, now) as i64))
            },
        },
{
    match last_activity {
        None => None,
        Some(t) => {
            let span: i128 = (idle_days as i128) * 86_400_000i128;
            assert(span <= 4_294_967_295i128 * 86_400_000i128) by (nonlinear_arith)
                requires
                    span == (idle_days as i128) * 86_400_000i128,
                    idle_days <= 4_294_967_295u32,
            ;
            let cutoff: i128 = now as i128 - span;
            if (t as i128) >= cutoff {
                None
            } else {
                let d: i64 = now - t;
                let days: i64 = if d >= 0 { d / DAY_MS } else { -((-d) / DAY_MS) };
                Some((IdleAction::TeardownWithArchive, days))
            }
        },
    }
}

} // verus!
