//! The decision engine: a pure mapping from one ad's reported state, its
//! cost-per-action, and the policy threshold to an optional status change
//! and the message lines reported for that ad.

use vstd::prelude::*;
use vstd::string::StringExecFns;
use crate::facebook::{AdData, CostPerAction, TargetStatus};
use crate::facebook::{spec_target_text, spec_tracked_action, tracked_action};
use crate::money;
use crate::text;

verus! {

/// The policy: the cost-per-action ceiling, in micros per action.
#[derive(Debug, Clone)]
pub struct AdMetricsThresholds {
    pub max_cost_per_action: u64,
}

/// The first cost entry for the tracked action type.
pub open spec fn spec_first_cost(entries: Seq<CostPerAction>) -> Option<CostPerAction>
    decreases entries.len(),
{
    if entries.len() == 0 {
        Option::None
    } else if entries[0].action_type@ == spec_tracked_action() {
        Option::Some(entries[0])
    } else {
        spec_first_cost(entries.drop_first())
    }
}

/// An ad's cost-per-action in micros: the value of its tracked cost entry,
/// or zero when the entry is absent or unparsable.
pub open spec fn spec_cost_per_action(ad: AdData) -> u64 {
    match spec_first_cost(ad.cost_per_action_type@) {
        Option::None => 0,
        Option::Some(e) => match money::spec_parse_money(e.value@) {
            Option::None => 0,
            Option::Some(v) => v,
        },
    }
}

/// The close rule: a nominally and effectively active ad whose cost exceeds
/// the ceiling is to be paused.
pub open spec fn spec_should_close(ad: AdData, cost: u64, threshold: u64) -> bool {
    ad.status@ == "ACTIVE"@ && ad.effective_status@ == "ACTIVE"@ && cost > threshold
}

/// The open rule: a nominally and effectively paused ad whose cost is below
/// the ceiling is to be reactivated.
pub open spec fn spec_should_open(ad: AdData, cost: u64, threshold: u64) -> bool {
    ad.status@ == "PAUSED"@ && ad.effective_status@ == "PAUSED"@ && cost < threshold
}

/// The decision for one ad. A disapproved ad is never touched; otherwise
/// the close rule and the open rule apply, and they are mutually exclusive
/// by construction.
pub open spec fn spec_decision(ad: AdData, threshold: u64) -> Option<TargetStatus> {
    if ad.effective_status@ == "DISAPPROVED"@ {
        Option::None
    } else if spec_should_close(ad, spec_cost_per_action(ad), threshold) {
        Option::Some(TargetStatus::Paused)
    } else if spec_should_open(ad, spec_cost_per_action(ad), threshold) {
        Option::Some(TargetStatus::Active)
    } else {
        Option::None
    }
}

/// How one ad acts on the account's "all ads paused so far" flag: a
/// disapproved ad leaves it alone; any other ad clears it unless the ad is
/// campaign-paused.
pub open spec fn spec_flag_step(ad: AdData, before: bool) -> bool {
    if ad.effective_status@ == "DISAPPROVED"@ {
        before
    } else if ad.effective_status@ != "CAMPAIGN_PAUSED"@ {
        false
    } else {
        before
    }
}

pub open spec fn spec_disapproved_line(name: Seq<char>) -> Seq<char> {
    "\u{274c} Ad disapproved: "@ + name + " waiting for deletion"@
}

pub open spec fn spec_update_line(name: Seq<char>, target: TargetStatus) -> Seq<char> {
    "\u{1f9e0} Updated ad status: "@ + name + " to "@ + spec_target_text(target)
}

pub open spec fn spec_paused_line(name: Seq<char>, cost: u64) -> Seq<char> {
    "\u{274c} Ad paused: "@ + name + ":\u{1f4b0}"@ + money::spec_money_string(cost)
}

pub open spec fn spec_active_line(name: Seq<char>, cost: u64) -> Seq<char> {
    "\u{1f7e2} Ad active: "@ + name + ":\u{1f4b0}"@ + money::spec_money_string(cost)
}

/// The status line reported for a non-disapproved ad, independent of
/// whether a change was applied.
pub open spec fn spec_status_line(ad: AdData, cost: u64) -> Seq<char> {
    if ad.status@ == "PAUSED"@ || ad.effective_status@ == "CAMPAIGN_PAUSED"@ {
        spec_paused_line(ad.name@, cost)
    } else {
        spec_active_line(ad.name@, cost)
    }
}

/// All message lines contributed by one ad, in order.
pub open spec fn spec_ad_lines(ad: AdData, threshold: u64) -> Seq<Seq<char>> {
    if ad.effective_status@ == "DISAPPROVED"@ {
        seq![spec_disapproved_line(ad.name@)]
    } else {
        let cost = spec_cost_per_action(ad);
        match spec_decision(ad, threshold) {
            Option::Some(t) => seq![spec_update_line(ad.name@, t), spec_status_line(ad, cost)],
            Option::None => seq![spec_status_line(ad, cost)],
        }
    }
}

/// The outcome of evaluating one ad: the optional status change, the
/// message lines for the aggregated report, and the account's "all ads
/// paused so far" flag after this ad.
pub struct AdEvaluation {
    pub change: Option<TargetStatus>,
    pub lines: Vec<String>,
    pub all_paused: bool,
}

fn disapproved_line(name: &String) -> (r: String)
    ensures
        r@ == spec_disapproved_line(name@),
{
    let mut s = String::from_str("\u{274c} Ad disapproved: ");
    s.append(name.as_str());
    s.append(" waiting for deletion");
    proof {
        assert(s@ =~= spec_disapproved_line(name@));
    }
    s
}

fn update_line(name: &String, target: TargetStatus) -> (r: String)
    ensures
        r@ == spec_update_line(name@, target),
{
    let mut s = String::from_str("\u{1f9e0} Updated ad status: ");
    s.append(name.as_str());
    s.append(" to ");
    s.append(target.as_str());
    proof {
        assert(s@ =~= spec_update_line(name@, target));
    }
    s
}

fn status_line(ad: &AdData, cost: u64) -> (r: String)
    ensures
        r@ == spec_status_line(*ad, cost),
{
    let paused = text::str_eq(ad.status.as_str(), "PAUSED") || text::str_eq(
        ad.effective_status.as_str(),
        "CAMPAIGN_PAUSED",
    );
    let mut s = if paused {
        String::from_str("\u{274c} Ad paused: ")
    } else {
        String::from_str("\u{1f7e2} Ad active: ")
    };
    s.append(ad.name.as_str());
    s.append(":\u{1f4b0}");
    let amount = money::money_to_string(cost);
    s.append(amount.as_str());
    proof {
        assert(s@ =~= spec_status_line(*ad, cost));
    }
    s
}

/// The policy holder; mirrors the worker that owns the thresholds.
pub struct AdWorker {
    pub thresholds: AdMetricsThresholds,
}

impl AdWorker {
    pub fn new(thresholds: AdMetricsThresholds) -> (w: AdWorker)
        ensures
            w.thresholds == thresholds,
    {
        AdWorker { thresholds }
    }

    /// Looks up the ad's tracked cost entry and parses its value; absent or
    /// unparsable values count as zero.
    pub fn get_cost_per_action(&self, ad: &AdData) -> (c: u64)
        ensures
            c == spec_cost_per_action(*ad),
    {
        let entries = &ad.cost_per_action_type;
        let mut i: usize = 0;
        proof {
            assert(entries@.skip(0) =~= entries@);
        }
        while i < entries.len()
            invariant
                0 <= i <= entries@.len(),
                entries@ == ad.cost_per_action_type@,
                spec_first_cost(entries@) == spec_first_cost(entries@.skip(i as int)),
            decreases entries@.len() - i,
        {
            proof {
                assert(entries@.skip(i as int)[0] == entries@[i as int]);
            }
            if text::str_eq(entries[i].action_type.as_str(), tracked_action()) {
                proof {
                    assert(spec_first_cost(entries@.skip(i as int)) == Option::Some(
                        entries@[i as int],
                    ));
                }
                let parsed = money::parse_money(entries[i].value.as_str());
                proof {
                    assert(parsed == money::spec_parse_money(entries@[i as int].value@));
                    assert(entries@ == ad.cost_per_action_type@);
                    assert(spec_first_cost(entries@) == spec_first_cost(
                        entries@.skip(i as int),
                    ));
                    assert(spec_first_cost(ad.cost_per_action_type@) == Option::Some(
                        entries@[i as int],
                    ));
                }
                let c: u64 = match parsed {
                    Option::Some(v) => v,
                    Option::None => 0,
                };
                proof {
                    assert(c == spec_cost_per_action(*ad));
                }
                return c;
            }
            proof {
                assert(entries@.skip(i as int).drop_first() =~= entries@.skip(i as int + 1));
            }
            i += 1;
        }
        proof {
            assert(entries@.skip(entries@.len() as int).len() == 0);
        }
        0
    }

    /// The close rule as executable code.
    pub fn should_close_ad(&self, ad: &AdData, cost_per_action: u64) -> (r: bool)
        ensures
            r == spec_should_close(*ad, cost_per_action, self.thresholds.max_cost_per_action),
    {
        text::str_eq(ad.status.as_str(), "ACTIVE") && text::str_eq(
            ad.effective_status.as_str(),
            "ACTIVE",
        ) && cost_per_action > self.thresholds.max_cost_per_action
    }

    /// The open rule as executable code.
    pub fn should_open_ad(&self, ad: &AdData, cost_per_action: u64) -> (r: bool)
        ensures
            r == spec_should_open(*ad, cost_per_action, self.thresholds.max_cost_per_action),
    {
        text::str_eq(ad.status.as_str(), "PAUSED") && text::str_eq(
            ad.effective_status.as_str(),
            "PAUSED",
        ) && cost_per_action < self.thresholds.max_cost_per_action
    }

    /// Evaluates one ad: decides the optional status change, produces the
    /// ad's message lines, and advances the account's "all ads paused so
    /// far" flag. Pure in its inputs.
    pub fn process_ad(&self, ad: &AdData, all_paused: bool) -> (ev: AdEvaluation)
        ensures
            ev.change == spec_decision(*ad, self.thresholds.max_cost_per_action),
            ev.all_paused == spec_flag_step(*ad, all_paused),
            ev.lines.deep_view() == spec_ad_lines(*ad, self.thresholds.max_cost_per_action),
            spec_should_close(
                *ad,
                spec_cost_per_action(*ad),
                self.thresholds.max_cost_per_action,
            ) && ad.effective_status@ != "DISAPPROVED"@ ==> ev.change == Option::Some(
                TargetStatus::Paused,
            ),
            spec_should_open(
                *ad,
                spec_cost_per_action(*ad),
                self.thresholds.max_cost_per_action,
            ) && ad.effective_status@ != "DISAPPROVED"@ ==> ev.change == Option::Some(
                TargetStatus::Active,
            ),
            ad.effective_status@ == "DISAPPROVED"@ ==> ev.change is None && ev.all_paused
                == all_paused,
    {
        let mut lines: Vec<String> = Vec::new();
        if text::str_eq(ad.effective_status.as_str(), "DISAPPROVED") {
            lines.push(disapproved_line(&ad.name));
            proof {
                assert(lines.deep_view() =~= spec_ad_lines(
                    *ad,
                    self.thresholds.max_cost_per_action,
                ));
            }
            return AdEvaluation { change: Option::None, lines, all_paused };
        }
        let still_paused = if !text::str_eq(ad.effective_status.as_str(), "CAMPAIGN_PAUSED") {
            false
        } else {
            all_paused
        };
        let cost_per_action = self.get_cost_per_action(ad);
        let change: Option<TargetStatus> = if self.should_close_ad(ad, cost_per_action) {
            Option::Some(TargetStatus::Paused)
        } else if self.should_open_ad(ad, cost_per_action) {
            Option::Some(TargetStatus::Active)
        } else {
            Option::None
        };
        match change {
            Option::Some(t) => {
                lines.push(update_line(&ad.name, t));
            },
            Option::None => {},
        }
        lines.push(status_line(ad, cost_per_action));
        proof {
            assert(lines.deep_view() =~= spec_ad_lines(*ad, self.thresholds.max_cost_per_action));
        }
        AdEvaluation { change, lines, all_paused: still_paused }
    }
}

/// The decision engine is a pure function of the ad record and the
/// threshold: evaluating equal inputs yields equal decisions.
pub proof fn lemma_decision_idempotent(ad1: AdData, ad2: AdData, t1: u64, t2: u64)
    requires
        ad1 == ad2,
        t1 == t2,
    ensures
        spec_decision(ad1, t1) == spec_decision(ad2, t2),
        spec_flag_step(ad1, true) == spec_flag_step(ad2, true),
        spec_flag_step(ad1, false) == spec_flag_step(ad2, false),
{
}

/// The close rule always yields "set paused": an ad that is nominally and
/// effectively active with a cost above the ceiling is paused.
pub proof fn lemma_close_rule(ad: AdData, threshold: u64)
    requires
        ad.status@ == "ACTIVE"@,
        ad.effective_status@ == "ACTIVE"@,
        spec_cost_per_action(ad) > threshold,
    ensures
        spec_decision(ad, threshold) == Option::Some(TargetStatus::Paused),
{
    reveal_strlit("ACTIVE");
    reveal_strlit("DISAPPROVED");
    assert("ACTIVE"@.len() == 6);
    assert("DISAPPROVED"@.len() == 11);
    assert(ad.effective_status@ != "DISAPPROVED"@);
}

/// The open rule always yields "set active": an ad that is nominally and
/// effectively paused with a cost below the ceiling is reactivated.
pub proof fn lemma_open_rule(ad: AdData, threshold: u64)
    requires
        ad.status@ == "PAUSED"@,
        ad.effective_status@ == "PAUSED"@,
        spec_cost_per_action(ad) < threshold,
    ensures
        spec_decision(ad, threshold) == Option::Some(TargetStatus::Active),
{
    reveal_strlit("PAUSED");
    reveal_strlit("DISAPPROVED");
    reveal_strlit("ACTIVE");
    assert("PAUSED"@.len() == 6);
    assert("DISAPPROVED"@.len() == 11);
    assert("ACTIVE"@[0] == 'A' && "PAUSED"@[0] == 'P');
    assert(ad.effective_status@ != "DISAPPROVED"@);
    assert(!spec_should_close(ad, spec_cost_per_action(ad), threshold));
}

/// A disapproved ad is never touched and never affects the account's
/// "all ads paused" flag.
pub proof fn lemma_disapproved_rule(ad: AdData, threshold: u64, flag: bool)
    requires
        ad.effective_status@ == "DISAPPROVED"@,
    ensures
        spec_decision(ad, threshold) is None,
        spec_flag_step(ad, flag) == flag,
{
}

} // verus!
