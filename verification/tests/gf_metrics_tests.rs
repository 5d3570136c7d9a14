use clawops::gf_metrics::{
    count_statuses, data_confidence, downsize_recommendation, idle_decision, provider_recommendation, IdleAction,
    InstanceStatus, ProviderRecommendation, RecommendationConfidence, StatusCounts, StatusEntry,
};
use clawops::gf_proto::InstanceTier;
use clawops::ledger::{recommended_pair, ProviderRecommendation as R};
use clawops::proto::VpsProvider as P;

fn entry(status: InstanceStatus, role: &str) -> StatusEntry {
    StatusEntry { status, role: role.to_string() }
}

#[test]
fn status_counts_count_active_primaries_as_pairs() {
    let entries = vec![
        entry(InstanceStatus::Active, "primary"),
        entry(InstanceStatus::Active, "standby"),
        entry(InstanceStatus::Degraded, "primary"),
        entry(InstanceStatus::Failed, "standby"),
        entry(InstanceStatus::Creating, "primary"),
        entry(InstanceStatus::Bootstrapping, "standby"),
        entry(InstanceStatus::Idle, "primary"),
    ];
    assert_eq!(
        count_statuses(&entries),
        StatusCounts {
            total_instances: 7,
            active_pairs: 1,
            degraded_instances: 1,
            failed_instances: 1,
            bootstrapping_instances: 2,
        }
    );
    assert_eq!(count_statuses(&[]).total_instances, 0);
}

#[test]
fn provider_scores_map_to_recommendations() {
    assert_eq!(provider_recommendation(100), ProviderRecommendation::Primary);
    assert_eq!(provider_recommendation(85), ProviderRecommendation::Primary);
    assert_eq!(provider_recommendation(84), ProviderRecommendation::PrimaryOk);
    assert_eq!(provider_recommendation(65), ProviderRecommendation::StandbyOnly);
    assert_eq!(provider_recommendation(64), ProviderRecommendation::Pause);
}

#[test]
fn data_and_downsize_decisions() {
    assert_eq!(data_confidence(168), Some(RecommendationConfidence::High));
    assert_eq!(data_confidence(72), Some(RecommendationConfidence::Medium));
    assert_eq!(data_confidence(71), None);
    assert_eq!(downsize_recommendation("pro"), Some((InstanceTier::Pro, InstanceTier::Standard, 12)));
    assert_eq!(downsize_recommendation("standard"), Some((InstanceTier::Standard, InstanceTier::Nano, 8)));
    assert_eq!(downsize_recommendation("nano"), None);
    assert_eq!(downsize_recommendation("huge"), None);
}

#[test]
fn idle_accounts_past_the_limit_are_torn_down() {
    let day = 86_400_000i64;
    let now = 100 * day;
    assert_eq!(idle_decision(None, now, 30), None);
    assert_eq!(idle_decision(Some(now - 10 * day), now, 30), None);
    assert_eq!(idle_decision(Some(now - 30 * day), now, 30), None);
    assert_eq!(idle_decision(Some(now - 45 * day - 5), now, 30), Some((IdleAction::TeardownWithArchive, 45)));
}

#[test]
fn ledger_picks_primary_and_distinct_standby() {
    assert_eq!(
        recommended_pair(&[(P::Vultr, R::GoodForStandby), (P::Contabo, R::PreferForPrimary), (P::Hetzner, R::PreferForPrimary)]),
        (P::Contabo, P::Vultr)
    );
    assert_eq!(recommended_pair(&[(P::Contabo, R::Acceptable)]), (P::Hetzner, P::Vultr));
    assert_eq!(recommended_pair(&[(P::Hetzner, R::GoodForStandby), (P::DigitalOcean, R::GoodForStandby)]), (P::Hetzner, P::DigitalOcean));
}
