//! Cost-analysis classifications of the Ledger agent, the tier downsizing
//! rule, and the choice of primary and standby providers from a ranking.
//! Scores and money are floating point and computed by the caller.

use vstd::prelude::*;
use crate::proto::{InstanceTier, VpsProvider};

verus! {

/// Where spend is heading relative to projection.
#[derive(Debug, Clone, Copy, PartialEq, Eq, Structural)]
pub enum CostTrajectory {
    /// Spend trending down relative to projection.
    BelowBudget,
    /// Spend within ±5% of projection.
    OnTrack,
    /// Spend trending above projection (5–15%).
    Elevated,
    /// Spend more than 15% above projection.
    Anomaly,
}

/// A recommended optimisation.
#[derive(Debug, Clone, Copy, PartialEq, Eq, Structural)]
pub enum OptimizationType {
    /// Downsize to a smaller tier.
    Downsize { from_tier: InstanceTier, to_tier: InstanceTier },
    /// Teardown idle instance (archive first).
    Teardown { idle_days: u32 },
    /// Migrate to a cheaper provider.
    Migrate { from_provider: VpsProvider, to_provider: VpsProvider },
    /// Archive data and suspend instance.
    Archive { last_active_days: u32 },
}

#[derive(Debug, Clone, Copy, PartialEq, Eq, Structural)]
pub enum OptimizationConfidence {
    High,
    Medium,
    Low,
}

#[derive(Debug, Clone, Copy, PartialEq, Eq, Structural)]
pub enum ProviderRecommendation {
    /// Best option for primary provisioning.
    PreferForPrimary,
    /// Good as standby.
    GoodForStandby,
    /// Acceptable; monitor closely.
    Acceptable,
    /// Below threshold; pause new provisioning.
    PausePrimary,
    /// Do not use.
    Avoid,
}

/// The Ledger agent's analysis engine.
pub struct CostEngine;

/// The next smaller tier; `Nano` stays `Nano`.
pub open spec fn smaller_tier(t: InstanceTier) -> InstanceTier {
    match t {
        InstanceTier::Enterprise => InstanceTier::Pro,
        InstanceTier::Pro => InstanceTier::Standard,
        InstanceTier::Standard => InstanceTier::Nano,
        InstanceTier::Nano => InstanceTier::Nano,
    }
}

/// The tier an oversized instance is downsized to.
pub fn downsize_tier(tier: &InstanceTier) -> (t: InstanceTier)
    ensures
        t == smaller_tier(*tier),
{
    match tier {
        InstanceTier::Enterprise => InstanceTier::Pro,
        InstanceTier::Pro => InstanceTier::Standard,
        InstanceTier::Standard => InstanceTier::Nano,
        InstanceTier::Nano => InstanceTier::Nano,
    }
}

/// Repeated downsizing ends at `Nano` after at most three steps and stays
/// there.
pub proof fn lemma_downsize_reaches_nano(t: InstanceTier)
    ensures
        smaller_tier(smaller_tier(smaller_tier(t))) == InstanceTier::Nano,
        smaller_tier(InstanceTier::Nano) == InstanceTier::Nano,
{
}

/// The first provider of `ranked` (best first) recommended for primary
/// provisioning, if any.
pub open spec fn first_primary(ranked: Seq<(VpsProvider, ProviderRecommendation)>) -> Option<VpsProvider>
    decreases ranked.len(),
{
    if ranked.len() == 0 {
        None
    } else if ranked[0].1 == ProviderRecommendation::PreferForPrimary {
        Some(ranked[0].0)
    } else {
        first_primary(ranked.drop_first())
    }
}

/// The first provider of `ranked` other than `primary` that is good for
/// primary or standby, if any.
pub open spec fn first_standby(ranked: Seq<(VpsProvider, ProviderRecommendation)>, primary: VpsProvider)
    -> Option<VpsProvider>
    decreases ranked.len(),
{
    if ranked.len() == 0 {
        None
    } else if ranked[0].0 != primary && (ranked[0].1 == ProviderRecommendation::PreferForPrimary
        || ranked[0].1 == ProviderRecommendation::GoodForStandby) {
        Some(ranked[0].0)
    } else {
        first_standby(ranked.drop_first(), primary)
    }
}

/// The primary recommended from a ranking: the best one preferred for
/// primary, Hetzner when none is.
pub open spec fn chosen_primary(ranked: Seq<(VpsProvider, ProviderRecommendation)>) -> VpsProvider {
    match first_primary(ranked) {
        Some(p) => p,
        None => VpsProvider::Hetzner,
    }
}

/// The standby recommended from a ranking: the best other provider good
/// for primary or standby, Vultr when none is.
pub open spec fn chosen_standby(ranked: Seq<(VpsProvider, ProviderRecommendation)>) -> VpsProvider {
    match first_standby(ranked, chosen_primary(ranked)) {
        Some(p) => p,
        None => VpsProvider::Vultr,
    }
}

/// The recommended primary and standby providers from providers ranked
/// best first with their recommendations.
pub fn recommended_pair(ranked: &[(VpsProvider, ProviderRecommendation)]) -> (r: (VpsProvider, VpsProvider))
    ensures
        r.0 == chosen_primary(ranked@),
        r.1 == chosen_standby(ranked@),
{
    let mut primary: Option<VpsProvider> = None;
    let mut i: usize = 0;
    assert(ranked@.skip(0) =~= ranked@);
    while i < ranked.len()
        invariant_except_break
            primary is None,
        invariant
            i <= ranked@.len(),
            first_primary(ranked@) == first_primary(ranked@.skip(i as int)),
        ensures
            first_primary(ranked@) == primary,
        decreases ranked@.len() - i,
    {
        assert(ranked@.skip(i as int).drop_first() =~= ranked@.skip(i as int + 1));
        if ranked[i].1 == ProviderRecommendation::PreferForPrimary {
            primary = Some(ranked[i].0);
            break;
        }
        i = i + 1;
    }
    let p = match primary {
        Some(p) => p,
        None => VpsProvider::Hetzner,
    };
    let mut standby: Option<VpsProvider> = None;
    let mut j: usize = 0;
    assert(ranked@.skip(0) =~= ranked@);
    while j < ranked.len()
        invariant_except_break
            standby is None,
        invariant
            j <= ranked@.len(),
            first_standby(ranked@, p) == first_standby(ranked@.skip(j as int), p),
        ensures
            first_standby(ranked@, p) == standby,
        decreases ranked@.len() - j,
    {
        assert(ranked@.skip(j as int).drop_first() =~= ranked@.skip(j as int + 1));
        let (prov, rec) = ranked[j];
        if prov != p && (rec == ProviderRecommendation::PreferForPrimary || rec == ProviderRecommendation::GoodForStandby) {
            standby = Some(prov);
            break;
        }
        j = j + 1;
    }
    let s = match standby {
        Some(s) => s,
        None => VpsProvider::Vultr,
    };
    (p, s)
}

/// The recommended standby is never the recommended primary when some
/// other provider qualifies; it falls back to Vultr only when none does.
pub proof fn lemma_standby_differs(ranked: Seq<(VpsProvider, ProviderRecommendation)>)
    requires
        first_standby(ranked, chosen_primary(ranked)) is Some,
    ensures
        chosen_standby(ranked) != chosen_primary(ranked),
{
    lemma_first_standby_differs(ranked, chosen_primary(ranked));
}

proof fn lemma_first_standby_differs(ranked: Seq<(VpsProvider, ProviderRecommendation)>, p: VpsProvider)
    ensures
        first_standby(ranked, p) matches Some(s) ==> s != p,
    decreases ranked.len(),
{
    if ranked.len() > 0 {
        lemma_first_standby_differs(ranked.drop_first(), p);
    }
}

} // verus!
