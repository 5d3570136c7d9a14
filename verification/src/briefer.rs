//! Scheduled fleet briefings: the daily overnight summary and voice script,
//! and the weekly roll-up of daily snapshots.
//!
//! Money amounts are formatted by the caller (they are floating point);
//! everything built from counts, titles and flags is computed here.

use vstd::prelude::*;
use vstd::string::*;
use crate::proto::FleetStatus;
use crate::text::{decimal, push_decimal, push_str};
use crate::sources::now_millis;

verus! {

// ─── Incidents in a briefing ─────────────────────────────────────────────────

/// One incident as listed in a briefing.
pub struct IncidentSummary {
    pub id: String,
    pub title: String,
    pub resolved: bool,
    pub affected_instances: u32,
}

impl IncidentSummary {
    /// An equal copy of the summary.
    pub fn clone_summary(&self) -> (r: IncidentSummary)
        ensures
            r == *self,
    {
        IncidentSummary {
            id: self.id.clone(),
            title: self.title.clone(),
            resolved: self.resolved,
            affected_instances: self.affected_instances,
        }
    }
}

/// Number of incidents in `incs` that are not resolved.
pub open spec fn open_count(incs: Seq<IncidentSummary>) -> nat
    decreases incs.len(),
{
    if incs.len() == 0 {
        0
    } else {
        open_count(incs.drop_last()) + if incs.last().resolved { 0nat } else { 1nat }
    }
}

/// The line recorded for a resolved incident.
pub open spec fn action_line(i: IncidentSummary) -> Seq<char> {
    "Resolved: "@ + i.title@ + " ("@ + decimal(i.affected_instances as nat) + " instances affected)"@
}

/// One action line per resolved incident, in input order.
pub open spec fn action_lines(incs: Seq<IncidentSummary>) -> Seq<Seq<char>>
    decreases incs.len(),
{
    if incs.len() == 0 {
        seq![]
    } else if incs.last().resolved {
        action_lines(incs.drop_last()).push(action_line(incs.last()))
    } else {
        action_lines(incs.drop_last())
    }
}

/// The briefing's recommendations: idle accounts to review, degraded
/// instances to look at, and the all-clear when nothing is open.
pub open spec fn recommendation_lines(idle_accounts: u32, degraded: u32, open: nat) -> Seq<Seq<char>> {
    (if idle_accounts > 0 {
        seq!["Review "@ + decimal(idle_accounts as nat) + " idle accounts \u{2014} potential cost savings"@]
    } else {
        seq![]
    }) + (if degraded > 0 {
        seq![decimal(degraded as nat) + " degraded instances need attention"@]
    } else {
        seq![]
    }) + (if open == 0 {
        seq!["No SLA breaches. Fleet nominal."@]
    } else {
        seq![]
    })
}

/// The overnight sentence: active pairs across the three providers, then the
/// degraded and failed counts when there are any, or the all-healthy note.
pub open spec fn overnight_text(active: u32, degraded: u32, failed: u32) -> Seq<char> {
    decimal(active as nat) + " active pairs across 3 providers."@
        + (if degraded > 0 {
        " "@ + decimal(degraded as nat) + " degraded (auto-healing in progress)."@
    } else {
        Seq::<char>::empty()
    }) + (if failed > 0 {
        " "@ + decimal(failed as nat) + " failed (failover complete)."@
    } else {
        Seq::<char>::empty()
    }) + (if degraded == 0 && failed == 0 {
        " All pairs healthy overnight."@
    } else {
        Seq::<char>::empty()
    })
}

/// The views of a list of strings.
pub open spec fn string_views(v: Seq<String>) -> Seq<Seq<char>> {
    v.map_values(|s: String| s@)
}

// ─── Daily briefing ──────────────────────────────────────────────────────────

/// A daily briefing; `generated_at` is in milliseconds since the Unix epoch.
pub struct FleetBriefing {
    pub generated_at: i64,
    pub overnight_summary: String,
    pub cost_summary: String,
    pub incidents: Vec<IncidentSummary>,
    pub actions_taken: Vec<String>,
    pub recommendations: Vec<String>,
}

/// The overnight summary sentence for the given counts.
pub fn build_overnight_summary(active_pairs: u32, degraded: u32, failed: u32) -> (r: String)
    ensures
        r@ == overnight_text(active_pairs, degraded, failed),
{
    let mut s = String::new();
    push_decimal(&mut s, active_pairs as u64);
    push_str(&mut s, " active pairs across 3 providers.");
    let ghost head = s@;
    proof {
        reveal_strlit(" active pairs across 3 providers.");
        assert(head =~= decimal(active_pairs as nat) + " active pairs across 3 providers."@);
    }
    if degraded > 0 {
        push_str(&mut s, " ");
        push_decimal(&mut s, degraded as u64);
        push_str(&mut s, " degraded (auto-healing in progress).");
        assert(s@ =~= head + (" "@ + decimal(degraded as nat) + " degraded (auto-healing in progress)."@));
    }
    let ghost mid = s@;
    if failed > 0 {
        push_str(&mut s, " ");
        push_decimal(&mut s, failed as u64);
        push_str(&mut s, " failed (failover complete).");
        assert(s@ =~= mid + (" "@ + decimal(failed as nat) + " failed (failover complete)."@));
    }
    let ghost last = s@;
    if degraded == 0 && failed == 0 {
        push_str(&mut s, " All pairs healthy overnight.");
    }
    proof {
        let d = if degraded > 0 {
            " "@ + decimal(degraded as nat) + " degraded (auto-healing in progress)."@
        } else {
            Seq::<char>::empty()
        };
        let f = if failed > 0 {
            " "@ + decimal(failed as nat) + " failed (failover complete)."@
        } else {
            Seq::<char>::empty()
        };
        let h = if degraded == 0 && failed == 0 {
            " All pairs healthy overnight."@
        } else {
            Seq::<char>::empty()
        };
        assert(mid =~= head + d);
        assert(last =~= head + d + f);
        assert(s@ =~= head + d + f + h);
    }
    s
}

fn action_line_string(i: &IncidentSummary) -> (r: String)
    ensures
        r@ == action_line(*i),
{
    let mut s = String::new();
    push_str(&mut s, "Resolved: ");
    push_str(&mut s, i.title.as_str());
    push_str(&mut s, " (");
    push_decimal(&mut s, i.affected_instances as u64);
    push_str(&mut s, " instances affected)");
    assert(s@ =~= action_line(*i));
    s
}

/// The action lines for the resolved incidents, in input order.
pub fn briefing_actions(incidents: &[IncidentSummary]) -> (r: Vec<String>)
    ensures
        string_views(r@) == action_lines(incidents@),
{
    let mut out: Vec<String> = Vec::new();
    let mut i: usize = 0;
    while i < incidents.len()
        invariant
            i <= incidents@.len(),
            string_views(out@) == action_lines(incidents@.take(i as int)),
        decreases incidents@.len() - i,
    {
        let ghost before = out@;
        assert(incidents@.take(i as int + 1).drop_last() =~= incidents@.take(i as int));
        if incidents[i].resolved {
            let line = action_line_string(&incidents[i]);
            out.push(line);
            assert(string_views(out@) =~= string_views(before).push(action_line(incidents@[i as int])));
        }
        i = i + 1;
    }
    assert(incidents@.take(incidents@.len() as int) =~= incidents@);
    out
}

/// The number of incidents not yet resolved.
pub fn count_open(incidents: &[IncidentSummary]) -> (n: usize)
    ensures
        n == open_count(incidents@),
{
    let mut n: usize = 0;
    let mut i: usize = 0;
    while i < incidents.len()
        invariant
            i <= incidents@.len(),
            n == open_count(incidents@.take(i as int)),
            n <= i,
        decreases incidents@.len() - i,
    {
        assert(incidents@.take(i as int + 1).drop_last() =~= incidents@.take(i as int));
        if !incidents[i].resolved {
            n = n + 1;
        }
        i = i + 1;
    }
    assert(incidents@.take(incidents@.len() as int) =~= incidents@);
    n
}

/// The recommendations for the given idle-account, degraded and open counts.
pub fn briefing_recommendations(idle_accounts: u32, degraded: u32, open: usize) -> (r: Vec<String>)
    ensures
        string_views(r@) == recommendation_lines(idle_accounts, degraded, open as nat),
{
    let mut out: Vec<String> = Vec::new();
    if idle_accounts > 0 {
        let mut s = String::new();
        push_str(&mut s, "Review ");
        push_decimal(&mut s, idle_accounts as u64);
        push_str(&mut s, " idle accounts \u{2014} potential cost savings");
        out.push(s);
    }
    let ghost a = string_views(out@);
    if degraded > 0 {
        let mut s = String::new();
        push_decimal(&mut s, degraded as u64);
        push_str(&mut s, " degraded instances need attention");
        out.push(s);
        assert(string_views(out@) =~= a.push(s@));
    }
    let ghost b = string_views(out@);
    if open == 0 {
        let s = crate::text::owned("No SLA breaches. Fleet nominal.");
        out.push(s);
        assert(string_views(out@) =~= b.push(s@));
    }
    proof {
        let x = if idle_accounts > 0 {
            seq!["Review "@ + decimal(idle_accounts as nat) + " idle accounts \u{2014} potential cost savings"@]
        } else {
            seq![]
        };
        let y = if degraded > 0 {
            seq![decimal(degraded as nat) + " degraded instances need attention"@]
        } else {
            seq![]
        };
        let z = if open == 0 { seq!["No SLA breaches. Fleet nominal."@] } else { seq![] };
        assert(a =~= x);
        assert(b =~= x + y);
        assert(string_views(out@) =~= x + y + z);
    }
    out
}

fn copy_incidents(incidents: &[IncidentSummary]) -> (r: Vec<IncidentSummary>)
    ensures
        r@ == incidents@,
{
    let mut out: Vec<IncidentSummary> = Vec::new();
    let mut i: usize = 0;
    while i < incidents.len()
        invariant
            i <= incidents@.len(),
            out@ == incidents@.take(i as int),
        decreases incidents@.len() - i,
    {
        out.push(incidents[i].clone_summary());
        assert(out@ =~= incidents@.take(i as int + 1));
        i = i + 1;
    }
    assert(incidents@.take(incidents@.len() as int) =~= incidents@);
    out
}

/// The daily briefing for `fleet` at time `now`: the overnight summary,
/// the given cost line, the incidents, one action per resolved incident and
/// the recommendations.
pub fn generate_daily_briefing_at(
    fleet: &FleetStatus,
    cost_summary: &str,
    idle_accounts: u32,
    incidents: &[IncidentSummary],
    now: i64,
) -> (b: FleetBriefing)
    ensures
        b.generated_at == now,
        b.overnight_summary@ == overnight_text(
            fleet.active_pairs,
            fleet.degraded_instances,
            fleet.failed_instances,
        ),
        b.cost_summary@ == cost_summary@,
        b.incidents@ == incidents@,
        string_views(b.actions_taken@) == action_lines(incidents@),
        string_views(b.recommendations@) == recommendation_lines(
            idle_accounts,
            fleet.degraded_instances,
            open_count(incidents@),
        ),
{
    let overnight_summary = build_overnight_summary(
        fleet.active_pairs,
        fleet.degraded_instances,
        fleet.failed_instances,
    );
    let actions_taken = briefing_actions(incidents);
    let open = count_open(incidents);
    let recommendations = briefing_recommendations(idle_accounts, fleet.degraded_instances, open);
    FleetBriefing {
        generated_at: now,
        overnight_summary,
        cost_summary: crate::text::owned(cost_summary),
        incidents: copy_incidents(incidents),
        actions_taken,
        recommendations,
    }
}

/// The daily briefing for `fleet`, stamped with the current time.
pub fn generate_daily_briefing(
    fleet: &FleetStatus,
    cost_summary: &str,
    idle_accounts: u32,
    incidents: &[IncidentSummary],
) -> (b: FleetBriefing)
    ensures
        b.overnight_summary@ == overnight_text(
            fleet.active_pairs,
            fleet.degraded_instances,
            fleet.failed_instances,
        ),
        b.cost_summary@ == cost_summary@,
        b.incidents@ == incidents@,
        string_views(b.actions_taken@) == action_lines(incidents@),
        string_views(b.recommendations@) == recommendation_lines(
            idle_accounts,
            fleet.degraded_instances,
            open_count(incidents@),
        ),
{
    generate_daily_briefing_at(fleet, cost_summary, idle_accounts, incidents, now_millis())
}

// ─── Voice script ────────────────────────────────────────────────────────────

/// The sentence on open incidents in the voice script.
pub open spec fn incident_sentence(open: nat) -> Seq<char> {
    if open == 0 {
        "No open incidents. Full report in your Drive."@
    } else {
        decimal(open) + " open incident(s). Details in your Drive."@
    }
}

/// Each line preceded by a space, all concatenated.
pub open spec fn spaced(lines: Seq<Seq<char>>) -> Seq<char>
    decreases lines.len(),
{
    if lines.len() == 0 {
        Seq::<char>::empty()
    } else {
        spaced(lines.drop_last()) + " "@ + lines.last()
    }
}

/// The voice script of a briefing: greeting and overnight summary, cost
/// line, open-incident sentence and recommendations, separated by spaces.
pub open spec fn voice_text(b: FleetBriefing) -> Seq<char> {
    "[Dispatch \u{2014} 07:00 UTC] Good morning. "@ + b.overnight_summary@ + " "@ + b.cost_summary@
        + " "@ + incident_sentence(open_count(b.incidents@)) + spaced(string_views(b.recommendations@))
}

/// Formats a briefing as a conversational voice script.
pub fn format_voice_script(briefing: &FleetBriefing) -> (r: String)
    ensures
        r@ == voice_text(*briefing),
{
    let mut s = String::new();
    push_str(&mut s, "[Dispatch \u{2014} 07:00 UTC] Good morning. ");
    push_str(&mut s, briefing.overnight_summary.as_str());
    push_str(&mut s, " ");
    push_str(&mut s, briefing.cost_summary.as_str());
    push_str(&mut s, " ");
    let open = count_open(briefing.incidents.as_slice());
    let ghost pre = s@;
    if open == 0 {
        push_str(&mut s, "No open incidents. Full report in your Drive.");
    } else {
        push_decimal(&mut s, open as u64);
        push_str(&mut s, " open incident(s). Details in your Drive.");
    }
    assert(s@ =~= pre + incident_sentence(open as nat));
    let ghost head = s@;
    let recs = &briefing.recommendations;
    let mut i: usize = 0;
    assert(spaced(string_views(recs@).take(0)) =~= Seq::<char>::empty());
    assert(s@ =~= head + spaced(string_views(recs@).take(0)));
    while i < recs.len()
        invariant
            i <= recs@.len(),
            s@ == head + spaced(string_views(recs@).take(i as int)),
        decreases recs@.len() - i,
    {
        push_str(&mut s, " ");
        push_str(&mut s, recs[i].as_str());
        assert(string_views(recs@).take(i as int + 1).drop_last() =~= string_views(recs@).take(i as int));
        assert(s@ =~= head + spaced(string_views(recs@).take(i as int + 1)));
        i = i + 1;
    }
    assert(string_views(recs@).take(recs@.len() as int) =~= string_views(recs@));
    assert(s@ =~= voice_text(*briefing));
    s
}

// ─── Weekly roll-up ──────────────────────────────────────────────────────────

/// One day's fleet counts, as rolled up into the weekly report.
pub struct DailySnapshot {
    pub date: String,
    pub active_pairs: u32,
    pub degraded_peak: u32,
    pub failed_count: u32,
    pub incidents_resolved: u32,
    pub auto_heals: u32,
    pub failovers: u32,
}

/// Sum of `f` over the days.
pub open spec fn total_of(h: Seq<DailySnapshot>, f: spec_fn(DailySnapshot) -> u32) -> nat
    decreases h.len(),
{
    if h.len() == 0 {
        0
    } else {
        total_of(h.drop_last(), f) + f(h.last()) as nat
    }
}

/// The largest degraded peak over the days, 0 for none.
pub open spec fn peak_of(h: Seq<DailySnapshot>) -> nat
    decreases h.len(),
{
    if h.len() == 0 {
        0
    } else {
        let p = peak_of(h.drop_last());
        if h.last().degraded_peak as nat > p { h.last().degraded_peak as nat } else { p }
    }
}

pub open spec fn pairs_of(d: DailySnapshot) -> u32 { d.active_pairs }
pub open spec fn incidents_of(d: DailySnapshot) -> u32 { d.incidents_resolved }
pub open spec fn heals_of(d: DailySnapshot) -> u32 { d.auto_heals }
pub open spec fn failovers_of(d: DailySnapshot) -> u32 { d.failovers }

/// Whether every weekly sum fits in a `u32`.
pub open spec fn sums_fit(h: Seq<DailySnapshot>) -> bool {
    &&& total_of(h, |d: DailySnapshot| pairs_of(d)) <= u32::MAX
    &&& total_of(h, |d: DailySnapshot| incidents_of(d)) <= u32::MAX
    &&& total_of(h, |d: DailySnapshot| heals_of(d)) <= u32::MAX
    &&& total_of(h, |d: DailySnapshot| failovers_of(d)) <= u32::MAX
}

/// The week's label: first and last dates joined by an arrow.
pub open spec fn week_label_text(h: Seq<DailySnapshot>) -> Seq<char> {
    if h.len() == 0 {
        "Empty week"@
    } else {
        h[0].date@ + " \u{2192} "@ + h.last().date@
    }
}

/// The weekly recommendations: many failovers, a flagged cost variance, and
/// the pointer to the provider breakdown; for an empty week, the no-data note.
pub open spec fn weekly_recommendations(h: Seq<DailySnapshot>, failovers: nat, cost_flagged: bool) -> Seq<Seq<char>> {
    if h.len() == 0 {
        seq!["No data available for this week."@]
    } else {
        (if failovers > 3 {
            seq![decimal(failovers) + " failovers this week \u{2014} investigate provider stability"@]
        } else {
            seq![]
        }) + (if cost_flagged {
            seq!["Cost variance > 15% \u{2014} review anomalies"@]
        } else {
            seq![]
        }) + seq!["Full provider breakdown attached."@]
    }
}

/// The counted part of a weekly report; `generated_at` is in milliseconds
/// since the Unix epoch, `days` the number of snapshots rolled up.
pub struct WeeklyReport {
    pub week_label: String,
    pub generated_at: i64,
    pub days: usize,
    pub total_active_pairs: u32,
    pub total_incidents: u32,
    pub total_auto_heals: u32,
    pub total_failovers: u32,
    pub peak_degraded: u32,
    pub recommendations: Vec<String>,
}

fn weekly_recommendation_list(empty: bool, failovers: u32, cost_flagged: bool) -> (r: Vec<String>)
    ensures
        empty ==> string_views(r@) == seq!["No data available for this week."@],
        !empty ==> string_views(r@) == (if failovers > 3 {
            seq![decimal(failovers as nat) + " failovers this week \u{2014} investigate provider stability"@]
        } else {
            Seq::<Seq<char>>::empty()
        }) + (if cost_flagged {
            seq!["Cost variance > 15% \u{2014} review anomalies"@]
        } else {
            Seq::<Seq<char>>::empty()
        }) + seq!["Full provider breakdown attached."@],
{
    let mut out: Vec<String> = Vec::new();
    if empty {
        let s = crate::text::owned("No data available for this week.");
        out.push(s);
        assert(string_views(out@) =~= seq![s@]);
        return out;
    }
    if failovers > 3 {
        let mut s = String::new();
        push_decimal(&mut s, failovers as u64);
        push_str(&mut s, " failovers this week \u{2014} investigate provider stability");
        out.push(s);
    }
    let ghost a = string_views(out@);
    if cost_flagged {
        let s = crate::text::owned("Cost variance > 15% \u{2014} review anomalies");
        out.push(s);
        assert(string_views(out@) =~= a.push(s@));
    }
    let ghost b = string_views(out@);
    let s = crate::text::owned("Full provider breakdown attached.");
    out.push(s);
    assert(string_views(out@) =~= b.push(s@));
    proof {
        let x = if failovers > 3 {
            seq![decimal(failovers as nat) + " failovers this week \u{2014} investigate provider stability"@]
        } else {
            Seq::<Seq<char>>::empty()
        };
        let y = if cost_flagged {
            seq!["Cost variance > 15% \u{2014} review anomalies"@]
        } else {
            Seq::<Seq<char>>::empty()
        };
        assert(a =~= x);
        assert(b =~= x + y);
        assert(string_views(out@) =~= x + y + seq!["Full provider breakdown attached."@]);
    }
    out
}

/// Rolls a week of daily snapshots up into a report stamped `now`.
/// `cost_flagged` says whether the week's cost check flagged a variance.
pub fn generate_weekly_report_at(history: &[DailySnapshot], cost_flagged: bool, now: i64) -> (r: WeeklyReport)
    requires
        sums_fit(history@),
    ensures
        r.generated_at == now,
        r.days == history@.len(),
        r.week_label@ == week_label_text(history@),
        r.total_active_pairs == total_of(history@, |d: DailySnapshot| pairs_of(d)),
        r.total_incidents == total_of(history@, |d: DailySnapshot| incidents_of(d)),
        r.total_auto_heals == total_of(history@, |d: DailySnapshot| heals_of(d)),
        r.total_failovers == total_of(history@, |d: DailySnapshot| failovers_of(d)),
        r.peak_degraded == peak_of(history@),
        string_views(r.recommendations@) == weekly_recommendations(
            history@,
            r.total_failovers as nat,
            cost_flagged,
        ),
{
    let ghost fp = |d: DailySnapshot| pairs_of(d);
    let ghost fi = |d: DailySnapshot| incidents_of(d);
    let ghost fh = |d: DailySnapshot| heals_of(d);
    let ghost ff = |d: DailySnapshot| failovers_of(d);
    let mut pairs: u32 = 0;
    let mut incidents: u32 = 0;
    let mut heals: u32 = 0;
    let mut failovers: u32 = 0;
    let mut peak: u32 = 0;
    let mut i: usize = 0;
    while i < history.len()
        invariant
            i <= history@.len(),
            sums_fit(history@),
            pairs == total_of(history@.take(i as int), fp),
            incidents == total_of(history@.take(i as int), fi),
            heals == total_of(history@.take(i as int), fh),
            failovers == total_of(history@.take(i as int), ff),
            peak == peak_of(history@.take(i as int)),
            fp == (|d: DailySnapshot| pairs_of(d)),
            fi == (|d: DailySnapshot| incidents_of(d)),
            fh == (|d: DailySnapshot| heals_of(d)),
            ff == (|d: DailySnapshot| failovers_of(d)),
        decreases history@.len() - i,
    {
        let ghost t = history@.take(i as int + 1);
        assert(t.drop_last() =~= history@.take(i as int));
        proof {
            lemma_total_prefix(history@, fp, i as int + 1);
            lemma_total_prefix(history@, fi, i as int + 1);
            lemma_total_prefix(history@, fh, i as int + 1);
            lemma_total_prefix(history@, ff, i as int + 1);
        }
        let d = &history[i];
        pairs = pairs + d.active_pairs;
        incidents = incidents + d.incidents_resolved;
        heals = heals + d.auto_heals;
        failovers = failovers + d.failovers;
        if d.degraded_peak > peak {
            peak = d.degraded_peak;
        }
        i = i + 1;
    }
    assert(history@.take(history@.len() as int) =~= history@);
    let week_label = if history.len() == 0 {
        crate::text::owned("Empty week")
    } else {
        let mut s = String::new();
        push_str(&mut s, history[0].date.as_str());
        push_str(&mut s, " \u{2192} ");
        push_str(&mut s, history[history.len() - 1].date.as_str());
        s
    };
    let recommendations = weekly_recommendation_list(history.len() == 0, failovers, cost_flagged);
    WeeklyReport {
        week_label,
        generated_at: now,
        days: history.len(),
        total_active_pairs: pairs,
        total_incidents: incidents,
        total_auto_heals: heals,
        total_failovers: failovers,
        peak_degraded: peak,
        recommendations,
    }
}

/// Rolls a week of daily snapshots up into a report stamped with the
/// current time.
pub fn generate_weekly_report(history: &[DailySnapshot], cost_flagged: bool) -> (r: WeeklyReport)
    requires
        sums_fit(history@),
    ensures
        r.days == history@.len(),
        r.week_label@ == week_label_text(history@),
        r.total_active_pairs == total_of(history@, |d: DailySnapshot| pairs_of(d)),
        r.total_incidents == total_of(history@, |d: DailySnapshot| incidents_of(d)),
        r.total_auto_heals == total_of(history@, |d: DailySnapshot| heals_of(d)),
        r.total_failovers == total_of(history@, |d: DailySnapshot| failovers_of(d)),
        r.peak_degraded == peak_of(history@),
        string_views(r.recommendations@) == weekly_recommendations(
            history@,
            r.total_failovers as nat,
            cost_flagged,
        ),
{
    generate_weekly_report_at(history, cost_flagged, now_millis())
}

/// A sum over a prefix is at most the sum over the whole.
proof fn lemma_total_prefix(h: Seq<DailySnapshot>, f: spec_fn(DailySnapshot) -> u32, k: int)
    requires
        0 <= k <= h.len(),
    ensures
        total_of(h.take(k), f) <= total_of(h, f),
    decreases h.len(),
{
    if k < h.len() {
        assert(h.drop_last().take(k) =~= h.take(k));
        lemma_total_prefix(h.drop_last(), f, k);
    } else {
        assert(h.take(k) =~= h);
    }
}

} // verus!
