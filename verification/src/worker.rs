//! The per-account cycle as an explicit state machine.
//!
//! One cycle fetches the account's ads, short-circuits when there are none,
//! reports the balance, evaluates every ad, applies the decided status
//! changes in platform order, sends one aggregated report, and records one
//! metrics snapshot. The machine owns every decision; the surrounding
//! process merely performs the I/O named by each [`CycleAction`] and feeds
//! the outcome back as a [`CycleEvent`].
//!
//! Failure handling follows the worker's policy: a failed fetch or a failed
//! status update ends the cycle with a single error notification; a failed
//! message delivery or snapshot write is best-effort and never escalates.

use vstd::prelude::*;
use vstd::string::StringExecFns;
use crate::decision::{AdMetricsThresholds, AdWorker};
use crate::decision::{spec_ad_lines, spec_decision, spec_flag_step};
use crate::facebook::{AdData, TargetStatus};
use crate::models::AdAccountMetrics;
use crate::text;

verus! {

/// Seconds the worker loop sleeps between two passes over all accounts.
pub const WORKER_INTERVAL_SECS: u64 = 1800;

pub open spec fn spec_no_ads_notice(account: Seq<char>) -> Seq<char> {
    "\u{1f50d} Account "@ + account + " has no active ads"@
}

pub open spec fn spec_balance_notice(account: Seq<char>, funds: Seq<char>) -> Seq<char> {
    "\u{1f4b0} Account balance "@ + account + ": "@ + funds
}

pub open spec fn spec_all_paused_warning(account: Seq<char>) -> Seq<char> {
    "\u{1f6a8} Account "@ + account + " all ads are paused"@
}

pub open spec fn spec_error_notice(account: Seq<char>, error: Seq<char>) -> Seq<char> {
    "\u{1f6a8} Error in account "@ + account + ": "@ + error
}

pub fn no_ads_notice(account_id: &String) -> (r: String)
    ensures
        r@ == spec_no_ads_notice(account_id@),
{
    let mut s = String::from_str("\u{1f50d} Account ");
    s.append(account_id.as_str());
    s.append(" has no active ads");
    proof {
        assert(s@ =~= spec_no_ads_notice(account_id@));
    }
    s
}

pub fn balance_notice(account_id: &String, funds: &String) -> (r: String)
    ensures
        r@ == spec_balance_notice(account_id@, funds@),
{
    let mut s = String::from_str("\u{1f4b0} Account balance ");
    s.append(account_id.as_str());
    s.append(": ");
    s.append(funds.as_str());
    proof {
        assert(s@ =~= spec_balance_notice(account_id@, funds@));
    }
    s
}

pub fn all_paused_warning(account_id: &String) -> (r: String)
    ensures
        r@ == spec_all_paused_warning(account_id@),
{
    let mut s = String::from_str("\u{1f6a8} Account ");
    s.append(account_id.as_str());
    s.append(" all ads are paused");
    proof {
        assert(s@ =~= spec_all_paused_warning(account_id@));
    }
    s
}

pub fn error_notice(account_id: &String, error: &String) -> (r: String)
    ensures
        r@ == spec_error_notice(account_id@, error@),
{
    let mut s = String::from_str("\u{1f6a8} Error in account ");
    s.append(account_id.as_str());
    s.append(": ");
    s.append(error.as_str());
    proof {
        assert(s@ =~= spec_error_notice(account_id@, error@));
    }
    s
}

/// The spend figure of a metrics alert: whole currency units and two
/// fractional digits, truncated from the micros value.
pub open spec fn spec_spend_display(spend: u64) -> Seq<char> {
    text::spec_dec((spend as nat) / 1000000) + seq!['.'] + text::spec_dec_pad(
        ((spend as nat) % 1000000) / 10000,
        2,
    )
}

/// The text of a metrics alert for one account's snapshot.
pub open spec fn spec_metrics_alert(m: AdAccountMetrics) -> Seq<char> {
    "\u{1f4ca} Ad Account Update: "@ + m.account_id@ + "\n\u{1f4b0} Spend: $"@
        + spec_spend_display(m.spend) + "\n\u{1f441} Impressions: "@ + text::spec_dec_signed(
        m.impressions as int,
    ) + "\n\u{1f5b1} Clicks: "@ + text::spec_dec_signed(m.clicks as int)
        + "\n\u{2705} Conversions: "@ + text::spec_dec_signed(m.conversions as int) + "\n"@
}

/// Renders the metrics alert sent alongside a persisted snapshot.
pub fn metrics_alert_text(m: &AdAccountMetrics) -> (r: String)
    ensures
        r@ == spec_metrics_alert(*m),
{
    let mut s = String::from_str("\u{1f4ca} Ad Account Update: ");
    s.append(m.account_id.as_str());
    s.append("\n\u{1f4b0} Spend: $");
    let units = text::u64_to_string(m.spend / 1000000);
    s.append(units.as_str());
    s.append(".");
    let cents = text::u64_to_padded_string((m.spend % 1000000) / 10000, 2);
    s.append(cents.as_str());
    s.append("\n\u{1f441} Impressions: ");
    let impressions = text::i64_to_string(m.impressions);
    s.append(impressions.as_str());
    s.append("\n\u{1f5b1} Clicks: ");
    let clicks = text::i64_to_string(m.clicks);
    s.append(clicks.as_str());
    s.append("\n\u{2705} Conversions: ");
    let conversions = text::i64_to_string(m.conversions);
    s.append(conversions.as_str());
    s.append("\n");
    proof {
        reveal_strlit(".");
        reveal_strlit("\n");
        assert(s@ =~= spec_metrics_alert(*m));
    }
    s
}

/// The account's "all ads paused" flag after evaluating every ad in order,
/// starting from true.
pub open spec fn spec_flag(ads: Seq<AdData>) -> bool
    decreases ads.len(),
{
    if ads.len() == 0 {
        true
    } else {
        spec_flag_step(ads.last(), spec_flag(ads.drop_last()))
    }
}

/// The message lines of every ad, concatenated in platform order.
pub open spec fn spec_plan_lines(ads: Seq<AdData>, threshold: u64) -> Seq<Seq<char>>
    decreases ads.len(),
{
    if ads.len() == 0 {
        Seq::empty()
    } else {
        spec_plan_lines(ads.drop_last(), threshold) + spec_ad_lines(ads.last(), threshold)
    }
}

/// The lines of the aggregated report: every ad's lines, then the warning
/// when no ad cleared the "all ads paused" flag.
pub open spec fn spec_summary_lines(account: Seq<char>, ads: Seq<AdData>, threshold: u64) -> Seq<
    Seq<char>,
> {
    if spec_flag(ads) {
        spec_plan_lines(ads, threshold).push(spec_all_paused_warning(account))
    } else {
        spec_plan_lines(ads, threshold)
    }
}

/// The aggregated report: its lines joined by newlines.
pub open spec fn spec_summary_text(account: Seq<char>, ads: Seq<AdData>, threshold: u64) -> Seq<
    char,
> {
    text::spec_join_lines(spec_summary_lines(account, ads, threshold))
}

/// The status changes to apply, in platform order: the ad's name and the
/// decided target for every ad with a decision.
pub open spec fn spec_updates(ads: Seq<AdData>, threshold: u64) -> Seq<(Seq<char>, TargetStatus)>
    decreases ads.len(),
{
    if ads.len() == 0 {
        Seq::empty()
    } else {
        let front = spec_updates(ads.drop_last(), threshold);
        match spec_decision(ads.last(), threshold) {
            Option::Some(t) => front.push((ads.last().name@, t)),
            Option::None => front,
        }
    }
}

/// One planned status change.
#[derive(Debug, Clone)]
pub struct PlannedUpdate {
    pub ad_name: String,
    pub target: TargetStatus,
}

pub open spec fn spec_update_views(updates: Seq<PlannedUpdate>) -> Seq<(Seq<char>, TargetStatus)> {
    updates.map(|i: int, u: PlannedUpdate| (u.ad_name@, u.target))
}

pub open spec fn spec_ad_spend(ad: AdData) -> u64 {
    match ad.insights {
        Option::Some(ins) => ins.spend,
        Option::None => 0,
    }
}

pub open spec fn spec_ad_impressions(ad: AdData) -> i64 {
    match ad.insights {
        Option::Some(ins) => ins.impressions,
        Option::None => 0,
    }
}

pub open spec fn spec_ad_clicks(ad: AdData) -> i64 {
    match ad.insights {
        Option::Some(ins) => ins.clicks,
        Option::None => 0,
    }
}

pub open spec fn spec_sat_add_u64(a: u64, b: u64) -> u64 {
    if a + b > u64::MAX {
        u64::MAX
    } else {
        (a + b) as u64
    }
}

pub open spec fn spec_sat_add_i64(a: i64, b: i64) -> i64 {
    if a + b > i64::MAX {
        i64::MAX
    } else if a + b < i64::MIN {
        i64::MIN
    } else {
        (a + b) as i64
    }
}

/// Total spend of all ads, saturating at the top of the range.
pub open spec fn spec_spend_sum(ads: Seq<AdData>) -> u64
    decreases ads.len(),
{
    if ads.len() == 0 {
        0
    } else {
        spec_sat_add_u64(spec_spend_sum(ads.drop_last()), spec_ad_spend(ads.last()))
    }
}

pub open spec fn spec_impressions_sum(ads: Seq<AdData>) -> i64
    decreases ads.len(),
{
    if ads.len() == 0 {
        0
    } else {
        spec_sat_add_i64(spec_impressions_sum(ads.drop_last()), spec_ad_impressions(ads.last()))
    }
}

pub open spec fn spec_clicks_sum(ads: Seq<AdData>) -> i64
    decreases ads.len(),
{
    if ads.len() == 0 {
        0
    } else {
        spec_sat_add_i64(spec_clicks_sum(ads.drop_last()), spec_ad_clicks(ads.last()))
    }
}

/// The metrics snapshot the cycle records for an account: aggregate sums
/// over the fetched ads. Conversion counts are not part of the ad listing,
/// so the snapshot reports zero conversions.
pub open spec fn spec_snapshot_ok(account: Seq<char>, ads: Seq<AdData>, m: AdAccountMetrics) -> bool {
    &&& m.account_id@ == account
    &&& m.spend == spec_spend_sum(ads)
    &&& m.impressions == spec_impressions_sum(ads)
    &&& m.clicks == spec_clicks_sum(ads)
    &&& m.conversions == 0
}

pub open spec fn spec_metrics_eq(a: AdAccountMetrics, b: AdAccountMetrics) -> bool {
    &&& a.account_id@ == b.account_id@
    &&& a.spend == b.spend
    &&& a.impressions == b.impressions
    &&& a.clicks == b.clicks
    &&& a.conversions == b.conversions
}

fn sat_add_i64(a: i64, b: i64) -> (r: i64)
    ensures
        r == spec_sat_add_i64(a, b),
{
    match a.checked_add(b) {
        Option::Some(v) => v,
        Option::None => if a > 0 {
            i64::MAX
        } else {
            i64::MIN
        },
    }
}

/// What the process must do next for this account's cycle.
#[derive(Debug)]
pub enum CycleAction {
    /// Fetch the account's ads with insight data.
    FetchAds,
    /// Fetch the account's balance.
    FetchBalance,
    /// Send one text notification to the account's channel.
    SendMessage { text: String },
    /// Issue one status-change call for the named ad.
    UpdateAdStatus { ad_name: String, target: TargetStatus },
    /// Persist the account's metrics snapshot, best-effort.
    RecordSnapshot { snapshot: AdAccountMetrics },
    /// The cycle is over; move on to the next account.
    Finish { failed: bool },
}

/// What the process reports back after performing an action. Message
/// delivery and snapshot writes are best-effort, so their events carry no
/// outcome.
#[derive(Debug)]
pub enum CycleEvent {
    AdsFetched { ads: Vec<AdData> },
    AdsFetchFailed { error: String },
    BalanceFetched { funds: String },
    BalanceFetchFailed { error: String },
    MessageSent,
    AdUpdated,
    AdUpdateFailed { error: String },
    SnapshotRecorded,
}

/// Where the cycle stands.
#[derive(Debug)]
pub enum CycleState {
    FetchingAds,
    SendingNoAdsNotice,
    FetchingBalance { ads: Vec<AdData> },
    SendingBalanceNotice { ads: Vec<AdData> },
    ApplyingUpdates {
        updates: Vec<PlannedUpdate>,
        next: usize,
        summary: String,
        snapshot: AdAccountMetrics,
    },
    SendingSummary { snapshot: AdAccountMetrics },
    RecordingSnapshot,
    SendingErrorNotice,
    Done { failed: bool },
}

/// A state is well formed when an in-flight update index is in range.
pub open spec fn spec_wf_state(state: CycleState) -> bool {
    match state {
        CycleState::ApplyingUpdates { updates, next, .. } => next < updates@.len(),
        _ => true,
    }
}

/// One account's cycle: the account, the policy, and the current state.
pub struct AccountCycle {
    pub account_id: String,
    pub thresholds: AdMetricsThresholds,
    pub state: CycleState,
}

pub open spec fn spec_fail_to_notice(
    pre: AccountCycle,
    post: AccountCycle,
    action: CycleAction,
    error: Seq<char>,
) -> bool {
    &&& post.state is SendingErrorNotice
    &&& action matches CycleAction::SendMessage { text } && text@ == spec_error_notice(
        pre.account_id@,
        error,
    )
}

pub open spec fn spec_gave_up(post: AccountCycle, action: CycleAction) -> bool {
    &&& post.state matches CycleState::Done { failed } && failed
    &&& action matches CycleAction::Finish { failed } && failed
}

/// The transition relation of the cycle machine: what each event does to
/// the state and which action it triggers. An event that does not belong
/// to the current state ends the cycle as failed.
pub open spec fn spec_step_ok(
    pre: AccountCycle,
    event: CycleEvent,
    post: AccountCycle,
    action: CycleAction,
) -> bool {
    &&& post.account_id@ == pre.account_id@
    &&& post.thresholds == pre.thresholds
    &&& match (pre.state, event) {
        (CycleState::FetchingAds, CycleEvent::AdsFetched { ads }) => {
            if ads@.len() == 0 {
                &&& post.state is SendingNoAdsNotice
                &&& action matches CycleAction::SendMessage { text } && text@
                    == spec_no_ads_notice(pre.account_id@)
            } else {
                &&& post.state matches CycleState::FetchingBalance { ads: a } && a@ == ads@
                &&& action is FetchBalance
            }
        },
        (CycleState::FetchingAds, CycleEvent::AdsFetchFailed { error }) => spec_fail_to_notice(
            pre,
            post,
            action,
            error@,
        ),
        (CycleState::SendingNoAdsNotice, CycleEvent::MessageSent) => {
            &&& post.state matches CycleState::Done { failed } && !failed
            &&& action matches CycleAction::Finish { failed } && !failed
        },
        (CycleState::FetchingBalance { ads }, CycleEvent::BalanceFetched { funds }) => {
            &&& post.state matches CycleState::SendingBalanceNotice { ads: a } && a@ == ads@
            &&& action matches CycleAction::SendMessage { text } && text@ == spec_balance_notice(
                pre.account_id@,
                funds@,
            )
        },
        (CycleState::FetchingBalance { .. }, CycleEvent::BalanceFetchFailed { error }) => {
            spec_fail_to_notice(pre, post, action, error@)
        },
        (CycleState::SendingBalanceNotice { ads }, CycleEvent::MessageSent) => {
            let threshold = pre.thresholds.max_cost_per_action;
            let plan = spec_updates(ads@, threshold);
            if plan.len() == 0 {
                &&& post.state matches CycleState::SendingSummary { snapshot } && spec_snapshot_ok(
                    pre.account_id@,
                    ads@,
                    snapshot,
                )
                &&& action matches CycleAction::SendMessage { text } && text@ == spec_summary_text(
                    pre.account_id@,
                    ads@,
                    threshold,
                )
            } else {
                &&& post.state matches CycleState::ApplyingUpdates { updates, next, summary, snapshot }
                    && spec_update_views(updates@) == plan && next == 0 && summary@
                    == spec_summary_text(pre.account_id@, ads@, threshold) && spec_snapshot_ok(
                    pre.account_id@,
                    ads@,
                    snapshot,
                )
                &&& action matches CycleAction::UpdateAdStatus { ad_name, target } && (
                ad_name@,
                target,
                ) == plan[0]
            }
        },
        (
            CycleState::ApplyingUpdates { updates, next, summary, snapshot },
            CycleEvent::AdUpdated,
        ) => {
            if next + 1 < updates@.len() {
                &&& post.state matches CycleState::ApplyingUpdates {
                    updates: u2,
                    next: n2,
                    summary: s2,
                    snapshot: m2,
                } && spec_update_views(u2@) == spec_update_views(updates@) && n2 == next + 1 && s2@
                    == summary@ && spec_metrics_eq(m2, snapshot)
                &&& action matches CycleAction::UpdateAdStatus { ad_name, target } && (
                ad_name@,
                target,
                ) == spec_update_views(updates@)[next + 1]
            } else {
                &&& post.state matches CycleState::SendingSummary { snapshot: m2 }
                    && spec_metrics_eq(m2, snapshot)
                &&& action matches CycleAction::SendMessage { text } && text@ == summary@
            }
        },
        (CycleState::ApplyingUpdates { .. }, CycleEvent::AdUpdateFailed { error }) => {
            spec_fail_to_notice(pre, post, action, error@)
        },
        (CycleState::SendingSummary { snapshot }, CycleEvent::MessageSent) => {
            &&& post.state is RecordingSnapshot
            &&& action matches CycleAction::RecordSnapshot { snapshot: m2 } && spec_metrics_eq(
                m2,
                snapshot,
            )
        },
        (CycleState::RecordingSnapshot, CycleEvent::SnapshotRecorded) => {
            &&& post.state matches CycleState::Done { failed } && !failed
            &&& action matches CycleAction::Finish { failed } && !failed
        },
        (CycleState::SendingErrorNotice, CycleEvent::MessageSent) => {
            &&& post.state matches CycleState::Done { failed } && failed
            &&& action matches CycleAction::Finish { failed } && failed
        },
        _ => spec_gave_up(post, action),
    }
}

impl AccountCycle {
    /// Starts a cycle for one account: the first action is the ad fetch.
    pub fn new(account_id: String, thresholds: AdMetricsThresholds) -> (r: (
        AccountCycle,
        CycleAction,
    ))
        ensures
            r.0.account_id@ == account_id@,
            r.0.thresholds == thresholds,
            r.0.state is FetchingAds,
            r.1 is FetchAds,
            spec_wf_state(r.0.state),
    {
        (
            AccountCycle { account_id, thresholds, state: CycleState::FetchingAds },
            CycleAction::FetchAds,
        )
    }

    /// Advances the cycle by one event and names the next action.
    pub fn step(self, event: CycleEvent) -> (r: (AccountCycle, CycleAction))
        requires
            spec_wf_state(self.state),
        ensures
            spec_step_ok(self, event, r.0, r.1),
            spec_wf_state(r.0.state),
    {
        let AccountCycle { account_id, thresholds, state } = self;
        match (state, event) {
            (CycleState::FetchingAds, CycleEvent::AdsFetched { ads }) => {
                if ads.len() == 0 {
                    let text = no_ads_notice(&account_id);
                    (
                        AccountCycle {
                            account_id,
                            thresholds,
                            state: CycleState::SendingNoAdsNotice,
                        },
                        CycleAction::SendMessage { text },
                    )
                } else {
                    (
                        AccountCycle {
                            account_id,
                            thresholds,
                            state: CycleState::FetchingBalance { ads },
                        },
                        CycleAction::FetchBalance,
                    )
                }
            },
            (CycleState::FetchingAds, CycleEvent::AdsFetchFailed { error }) => {
                let text = error_notice(&account_id, &error);
                (
                    AccountCycle { account_id, thresholds, state: CycleState::SendingErrorNotice },
                    CycleAction::SendMessage { text },
                )
            },
            (CycleState::SendingNoAdsNotice, CycleEvent::MessageSent) => (
                AccountCycle { account_id, thresholds, state: CycleState::Done { failed: false } },
                CycleAction::Finish { failed: false },
            ),
            (CycleState::FetchingBalance { ads }, CycleEvent::BalanceFetched { funds }) => {
                let text = balance_notice(&account_id, &funds);
                (
                    AccountCycle {
                        account_id,
                        thresholds,
                        state: CycleState::SendingBalanceNotice { ads },
                    },
                    CycleAction::SendMessage { text },
                )
            },
            (CycleState::FetchingBalance { .. }, CycleEvent::BalanceFetchFailed { error }) => {
                let text = error_notice(&account_id, &error);
                (
                    AccountCycle { account_id, thresholds, state: CycleState::SendingErrorNotice },
                    CycleAction::SendMessage { text },
                )
            },
            (CycleState::SendingBalanceNotice { ads }, CycleEvent::MessageSent) => {
                let plan = build_plan(&account_id, &thresholds, &ads);
                let (updates, summary, snapshot) = plan;
                if updates.len() == 0 {
                    (
                        AccountCycle {
                            account_id,
                            thresholds,
                            state: CycleState::SendingSummary { snapshot },
                        },
                        CycleAction::SendMessage { text: summary },
                    )
                } else {
                    let ad_name = updates[0].ad_name.clone();
                    let target = updates[0].target;
                    proof {
                        assert(spec_update_views(updates@)[0] == (updates@[0].ad_name@, updates@[0].target));
                    }
                    (
                        AccountCycle {
                            account_id,
                            thresholds,
                            state: CycleState::ApplyingUpdates {
                                updates,
                                next: 0,
                                summary,
                                snapshot,
                            },
                        },
                        CycleAction::UpdateAdStatus { ad_name, target },
                    )
                }
            },
            (
                CycleState::ApplyingUpdates { updates, next, summary, snapshot },
                CycleEvent::AdUpdated,
            ) => {
                let total = updates.len();
                proof {
                    assert(spec_wf_state(
                        CycleState::ApplyingUpdates { updates, next, summary, snapshot },
                    ));
                    assert(next < updates@.len());
                }
                if next + 1 < total {
                    let ad_name = updates[next + 1].ad_name.clone();
                    let target = updates[next + 1].target;
                    proof {
                        assert(spec_update_views(updates@)[next + 1] == (
                            updates@[next as int + 1].ad_name@,
                            updates@[next as int + 1].target,
                        ));
                    }
                    (
                        AccountCycle {
                            account_id,
                            thresholds,
                            state: CycleState::ApplyingUpdates {
                                updates,
                                next: next + 1,
                                summary,
                                snapshot,
                            },
                        },
                        CycleAction::UpdateAdStatus { ad_name, target },
                    )
                } else {
                    (
                        AccountCycle {
                            account_id,
                            thresholds,
                            state: CycleState::SendingSummary { snapshot },
                        },
                        CycleAction::SendMessage { text: summary },
                    )
                }
            },
            (
                CycleState::ApplyingUpdates { .. },
                CycleEvent::AdUpdateFailed { error },
            ) => {
                let text = error_notice(&account_id, &error);
                (
                    AccountCycle { account_id, thresholds, state: CycleState::SendingErrorNotice },
                    CycleAction::SendMessage { text },
                )
            },
            (CycleState::SendingSummary { snapshot }, CycleEvent::MessageSent) => (
                AccountCycle { account_id, thresholds, state: CycleState::RecordingSnapshot },
                CycleAction::RecordSnapshot { snapshot },
            ),
            (CycleState::RecordingSnapshot, CycleEvent::SnapshotRecorded) => (
                AccountCycle { account_id, thresholds, state: CycleState::Done { failed: false } },
                CycleAction::Finish { failed: false },
            ),
            (CycleState::SendingErrorNotice, CycleEvent::MessageSent) => (
                AccountCycle { account_id, thresholds, state: CycleState::Done { failed: true } },
                CycleAction::Finish { failed: true },
            ),
            (_, _) => (
                AccountCycle { account_id, thresholds, state: CycleState::Done { failed: true } },
                CycleAction::Finish { failed: true },
            ),
        }
    }
}

/// Evaluates every ad of an account against the policy: the status changes
/// to apply in order, the aggregated report, and the metrics snapshot.
pub fn build_plan(
    account_id: &String,
    thresholds: &AdMetricsThresholds,
    ads: &Vec<AdData>,
) -> (r: (Vec<PlannedUpdate>, String, AdAccountMetrics))
    ensures
        spec_update_views(r.0@) == spec_updates(ads@, thresholds.max_cost_per_action),
        r.1@ == spec_summary_text(account_id@, ads@, thresholds.max_cost_per_action),
        spec_snapshot_ok(account_id@, ads@, r.2),
{
    let worker = AdWorker::new(AdMetricsThresholds {
        max_cost_per_action: thresholds.max_cost_per_action,
    });
    let ghost threshold = thresholds.max_cost_per_action;
    let mut updates: Vec<PlannedUpdate> = Vec::new();
    let mut lines: Vec<String> = Vec::new();
    let mut all_paused = true;
    let mut spend: u64 = 0;
    let mut impressions: i64 = 0;
    let mut clicks: i64 = 0;
    let mut i: usize = 0;
    while i < ads.len()
        invariant
            0 <= i <= ads@.len(),
            worker.thresholds.max_cost_per_action == threshold,
            spec_update_views(updates@) == spec_updates(ads@.take(i as int), threshold),
            lines.deep_view() == spec_plan_lines(ads@.take(i as int), threshold),
            all_paused == spec_flag(ads@.take(i as int)),
            spend == spec_spend_sum(ads@.take(i as int)),
            impressions == spec_impressions_sum(ads@.take(i as int)),
            clicks == spec_clicks_sum(ads@.take(i as int)),
        decreases ads@.len() - i,
    {
        let ghost prefix = ads@.take(i as int);
        let ghost prev_updates = updates@;
        let ghost prev_lines = lines.deep_view();
        let mut ev = worker.process_ad(&ads[i], all_paused);
        match ev.change {
            Option::Some(t) => {
                updates.push(PlannedUpdate { ad_name: ads[i].name.clone(), target: t });
                proof {
                    assert(spec_update_views(updates@) =~= spec_update_views(prev_updates).push(
                        (ads@[i as int].name@, t),
                    ));
                }
            },
            Option::None => {},
        }
        lines.append(&mut ev.lines);
        all_paused = ev.all_paused;
        let ad_spend = match &ads[i].insights {
            Option::Some(ins) => ins.spend,
            Option::None => 0,
        };
        let ad_impressions = match &ads[i].insights {
            Option::Some(ins) => ins.impressions,
            Option::None => 0,
        };
        let ad_clicks = match &ads[i].insights {
            Option::Some(ins) => ins.clicks,
            Option::None => 0,
        };
        spend = spend.saturating_add(ad_spend);
        impressions = sat_add_i64(impressions, ad_impressions);
        clicks = sat_add_i64(clicks, ad_clicks);
        proof {
            let next = ads@.take(i as int + 1);
            assert(next.drop_last() =~= prefix);
            assert(next.last() == ads@[i as int]);
            assert(lines.deep_view() =~= prev_lines + spec_ad_lines(ads@[i as int], threshold));
        }
        i += 1;
    }
    proof {
        assert(ads@.take(ads@.len() as int) =~= ads@);
    }
    if all_paused {
        lines.push(all_paused_warning(account_id));
        proof {
            assert(lines.deep_view() =~= spec_summary_lines(account_id@, ads@, threshold));
        }
    }
    let summary = text::join_lines(&lines);
    let snapshot = AdAccountMetrics {
        account_id: account_id.clone(),
        spend,
        impressions,
        clicks,
        conversions: 0,
    };
    (updates, summary, snapshot)
}

/// No ad clears the "all ads paused" flag exactly when every ad is either
/// disapproved or campaign-paused.
proof fn lemma_flag_forall(ads: Seq<AdData>)
    ensures
        spec_flag(ads) <==> (forall|i: int|
            0 <= i < ads.len() ==> (ads[i].effective_status@ == "DISAPPROVED"@
                || ads[i].effective_status@ == "CAMPAIGN_PAUSED"@)),
    decreases ads.len(),
{
    if ads.len() > 0 {
        lemma_flag_forall(ads.drop_last());
        assert(forall|i: int| 0 <= i < ads.len() - 1 ==> ads.drop_last()[i] == ads[i]);
        assert(ads.last() == ads[ads.len() - 1]);
    }
}

/// If every ad of a non-empty account is disapproved or campaign-paused,
/// the aggregated report ends with, and therefore contains, the "all ads
/// paused" warning line.
pub proof fn lemma_all_paused_warning_present(account: Seq<char>, ads: Seq<AdData>, threshold: u64)
    requires
        ads.len() > 0,
        forall|i: int|
            0 <= i < ads.len() ==> (ads[i].effective_status@ == "DISAPPROVED"@
                || ads[i].effective_status@ == "CAMPAIGN_PAUSED"@),
    ensures
        spec_summary_lines(account, ads, threshold).len() > 0,
        spec_summary_lines(account, ads, threshold).last() == spec_all_paused_warning(account),
        spec_summary_lines(account, ads, threshold).contains(spec_all_paused_warning(account)),
{
    lemma_flag_forall(ads);
    let lines = spec_summary_lines(account, ads, threshold);
    assert(lines == spec_plan_lines(ads, threshold).push(spec_all_paused_warning(account)));
    assert(lines.last() == spec_all_paused_warning(account));
    assert(lines[lines.len() - 1] == spec_all_paused_warning(account));
}

/// An account with no ads gets exactly one notification and no status
/// change: the machine answers the empty fetch with the single "no ads"
/// notice and the next event ends the cycle; no update action occurs.
pub proof fn lemma_empty_ads_single_notice(
    pre: AccountCycle,
    ads: Vec<AdData>,
    post: AccountCycle,
    action: CycleAction,
)
    requires
        pre.state is FetchingAds,
        ads@.len() == 0,
        spec_step_ok(pre, CycleEvent::AdsFetched { ads }, post, action),
    ensures
        post.state is SendingNoAdsNotice,
        action matches CycleAction::SendMessage { text } && text@ == spec_no_ads_notice(
            pre.account_id@,
        ),
{
}

/// After the "no ads" notice, the only possible step is to finish the
/// cycle: no further message and no status change can be issued.
pub proof fn lemma_no_ads_then_finish(
    pre: AccountCycle,
    event: CycleEvent,
    post: AccountCycle,
    action: CycleAction,
)
    requires
        pre.state is SendingNoAdsNotice,
        spec_step_ok(pre, event, post, action),
    ensures
        post.state is Done,
        action is Finish,
{
}

/// A failed ad fetch produces exactly one error notification for the
/// account's channel; the cycle then ends and the loop proceeds to the
/// next account.
pub proof fn lemma_fetch_error_single_notice(
    pre: AccountCycle,
    error: String,
    post: AccountCycle,
    action: CycleAction,
)
    requires
        pre.state is FetchingAds,
        spec_step_ok(pre, CycleEvent::AdsFetchFailed { error }, post, action),
    ensures
        post.state is SendingErrorNotice,
        action matches CycleAction::SendMessage { text } && text@ == spec_error_notice(
            pre.account_id@,
            error@,
        ),
{
}

/// After an error notice, the only possible step is to finish the cycle as
/// failed.
pub proof fn lemma_error_then_finish(
    pre: AccountCycle,
    event: CycleEvent,
    post: AccountCycle,
    action: CycleAction,
)
    requires
        pre.state is SendingErrorNotice,
        spec_step_ok(pre, event, post, action),
    ensures
        post.state is Done,
        action is Finish,
{
}

} // verus!
