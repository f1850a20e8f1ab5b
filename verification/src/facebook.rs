//! The platform-facing core: typed ad and balance records, the tolerant
//! normalization of raw platform payloads, status-synonym handling, and the
//! selection of ads whose status must be updated.
//!
//! The surrounding process performs the HTTP calls and hands the payload
//! leaves over as plain optional values; everything here is verified.

use vstd::prelude::*;
use vstd::string::StringExecFns;
use crate::money;
use crate::text;

verus! {

/// Errors surfaced by the platform adapter.
#[derive(Debug)]
pub enum FacebookApiError {
    /// Transport failure or non-success response; carries the diagnostic.
    RequestFailed(String),
    /// The account has run out of funds.
    InsufficientFunds,
    /// The top-level payload was malformed; carries the diagnostic.
    InvalidResponse(String),
    /// A caller-supplied argument was outside the accepted set.
    InvalidArgument(String),
}

/// One cost-per-action entry of an ad's insight data.
#[derive(Debug, Clone)]
pub struct CostPerAction {
    pub action_type: String,
    pub value: String,
}

/// The insight snapshot of one ad. Spend is held in micros.
#[derive(Debug, Clone)]
pub struct AdInsights {
    pub impressions: i64,
    pub reach: i64,
    pub clicks: i64,
    pub spend: u64,
}

/// One advertisement as reported by the platform for the current cycle.
#[derive(Debug, Clone)]
pub struct AdData {
    pub id: String,
    pub name: String,
    pub status: String,
    pub effective_status: String,
    pub insights: Option<AdInsights>,
    pub cost_per_action_type: Vec<CostPerAction>,
}

/// An account's balance, ready for display.
#[derive(Debug, Clone)]
pub struct AccountBalance {
    pub name: String,
    pub id: String,
    pub status: String,
    pub currency: String,
    pub available_funds: String,
}

/// One raw cost-per-action entry as found in the payload: either leaf may
/// be missing or non-textual.
#[derive(Debug, Clone)]
pub struct RawCostEntry {
    pub action_type: Option<String>,
    pub value: Option<String>,
}

/// The leaves of one raw ad payload. A missing or non-conforming leaf is
/// `None`; normalization substitutes the documented default.
#[derive(Debug, Clone)]
pub struct RawAd {
    pub id: Option<String>,
    pub name: Option<String>,
    pub status: Option<String>,
    pub effective_status: Option<String>,
    pub impressions: Option<i64>,
    pub reach: Option<i64>,
    pub clicks: Option<i64>,
    pub spend: Option<String>,
    pub cost_entries: Option<Vec<RawCostEntry>>,
}

/// The leaves of a raw account-balance payload.
#[derive(Debug, Clone)]
pub struct RawBalance {
    pub name: Option<String>,
    pub id: Option<String>,
    pub account_status: Option<i64>,
    pub currency: Option<String>,
    pub balance_minor: Option<i64>,
}

/// The conversion action type whose cost drives the policy.
pub open spec fn spec_tracked_action() -> Seq<char> {
    "offsite_conversion.fb_pixel_custom"@
}

pub fn tracked_action() -> (r: &'static str)
    ensures
        r@ == spec_tracked_action(),
{
    "offsite_conversion.fb_pixel_custom"
}

/// A missing text leaf defaults to the empty string.
pub open spec fn spec_opt_text(o: Option<String>) -> Seq<char> {
    match o {
        Option::Some(s) => s@,
        Option::None => Seq::empty(),
    }
}

/// A missing numeric leaf defaults to zero.
pub open spec fn spec_opt_i64(o: Option<i64>) -> i64 {
    match o {
        Option::Some(v) => v,
        Option::None => 0,
    }
}

/// A missing or unparsable spend string defaults to zero micros.
pub open spec fn spec_opt_spend(o: Option<String>) -> u64 {
    match o {
        Option::Some(s) => match money::spec_parse_money(s@) {
            Option::Some(v) => v,
            Option::None => 0,
        },
        Option::None => 0,
    }
}

/// The first raw cost entry whose action type is the tracked one.
pub open spec fn spec_first_tracked(entries: Seq<RawCostEntry>) -> Option<RawCostEntry>
    decreases entries.len(),
{
    if entries.len() == 0 {
        Option::None
    } else {
        let head = entries[0];
        let matched = match head.action_type {
            Option::Some(t) => t@ == spec_tracked_action(),
            Option::None => false,
        };
        if matched {
            Option::Some(head)
        } else {
            spec_first_tracked(entries.drop_first())
        }
    }
}

/// The cost string carried over into the normalized ad: the value of the
/// first tracked entry, or `"0"` when the entry or its value is missing.
pub open spec fn spec_raw_cost_text(raw: RawAd) -> Seq<char> {
    match raw.cost_entries {
        Option::None => "0"@,
        Option::Some(entries) => match spec_first_tracked(entries@) {
            Option::None => "0"@,
            Option::Some(e) => match e.value {
                Option::Some(v) => v@,
                Option::None => "0"@,
            },
        },
    }
}

fn clone_or_empty(o: &Option<String>) -> (r: String)
    ensures
        r@ == spec_opt_text(*o),
{
    match o {
        Option::Some(s) => s.clone(),
        Option::None => String::new(),
    }
}

fn clone_opt_text(o: &Option<String>) -> (r: Option<String>)
    ensures
        r == *o,
{
    match o {
        Option::Some(s) => Some(s.clone()),
        Option::None => None,
    }
}

fn first_tracked(entries: &Vec<RawCostEntry>) -> (r: Option<RawCostEntry>)
    ensures
        r == spec_first_tracked(entries@),
{
    let mut i: usize = 0;
    proof {
        assert(entries@.skip(0) =~= entries@);
    }
    while i < entries.len()
        invariant
            0 <= i <= entries@.len(),
            spec_first_tracked(entries@) == spec_first_tracked(entries@.skip(i as int)),
        decreases entries@.len() - i,
    {
        let matched = match &entries[i].action_type {
            Option::Some(t) => text::str_eq(t.as_str(), tracked_action()),
            Option::None => false,
        };
        proof {
            assert(entries@.skip(i as int)[0] == entries@[i as int]);
        }
        if matched {
            let found = RawCostEntry {
                action_type: clone_opt_text(&entries[i].action_type),
                value: clone_opt_text(&entries[i].value),
            };
            proof {
                assert(found == entries@[i as int]);
            }
            return Some(found);
        }
        proof {
            assert(entries@.skip(i as int).drop_first() =~= entries@.skip(i as int + 1));
        }
        i += 1;
    }
    proof {
        assert(entries@.skip(entries@.len() as int).len() == 0);
    }
    None
}

/// Builds the typed ad record from the raw payload leaves, substituting the
/// documented default for every missing leaf: empty text, zero numbers, and
/// `"0"` for a missing tracked cost. Never fails.
pub fn normalize_ad(raw: &RawAd) -> (ad: AdData)
    ensures
        ad.id@ == spec_opt_text(raw.id),
        ad.name@ == spec_opt_text(raw.name),
        ad.status@ == spec_opt_text(raw.status),
        ad.effective_status@ == spec_opt_text(raw.effective_status),
        ad.insights matches Option::Some(ins) && ins.impressions == spec_opt_i64(raw.impressions)
            && ins.reach == spec_opt_i64(raw.reach) && ins.clicks == spec_opt_i64(raw.clicks)
            && ins.spend == spec_opt_spend(raw.spend),
        ad.cost_per_action_type@.len() == 1,
        ad.cost_per_action_type@[0].action_type@ == spec_tracked_action(),
        ad.cost_per_action_type@[0].value@ == spec_raw_cost_text(*raw),
{
    let cost_value: String = match &raw.cost_entries {
        Option::Some(entries) => match first_tracked(entries) {
            Option::Some(e) => match e.value {
                Option::Some(v) => v,
                Option::None => String::from_str("0"),
            },
            Option::None => String::from_str("0"),
        },
        Option::None => String::from_str("0"),
    };
    let spend: u64 = match &raw.spend {
        Option::Some(s) => match money::parse_money(s.as_str()) {
            Option::Some(v) => v,
            Option::None => 0,
        },
        Option::None => 0,
    };
    let insights = AdInsights {
        impressions: match raw.impressions {
            Option::Some(v) => v,
            Option::None => 0,
        },
        reach: match raw.reach {
            Option::Some(v) => v,
            Option::None => 0,
        },
        clicks: match raw.clicks {
            Option::Some(v) => v,
            Option::None => 0,
        },
        spend,
    };
    let entry = CostPerAction { action_type: String::from_str(tracked_action()), value: cost_value };
    let mut entries: Vec<CostPerAction> = Vec::new();
    entries.push(entry);
    AdData {
        id: clone_or_empty(&raw.id),
        name: clone_or_empty(&raw.name),
        status: clone_or_empty(&raw.status),
        effective_status: clone_or_empty(&raw.effective_status),
        insights: Some(insights),
        cost_per_action_type: entries,
    }
}

/// A target running state for an ad.
#[derive(Debug, Clone, Copy, PartialEq, Eq, Structural)]
pub enum TargetStatus {
    Active,
    Paused,
}

/// The platform's name for a target status.
pub open spec fn spec_target_text(t: TargetStatus) -> Seq<char> {
    match t {
        TargetStatus::Active => "ACTIVE"@,
        TargetStatus::Paused => "PAUSED"@,
    }
}

impl TargetStatus {
    pub fn as_str(&self) -> (r: &'static str)
        ensures
            r@ == spec_target_text(*self),
    {
        match self {
            TargetStatus::Active => "ACTIVE",
            TargetStatus::Paused => "PAUSED",
        }
    }
}

/// The accepted status synonyms, compared without regard to ASCII case:
/// `a`/`active` and `p`/`paused`. Anything else is not a status.
pub open spec fn spec_status_synonym(s: Seq<char>) -> Option<TargetStatus> {
    let l = text::spec_lower(s);
    if l == "a"@ || l == "active"@ {
        Option::Some(TargetStatus::Active)
    } else if l == "p"@ || l == "paused"@ {
        Option::Some(TargetStatus::Paused)
    } else {
        Option::None
    }
}

/// Case-normalizes a requested status. Returns the target status for one of
/// the accepted synonyms, and `InvalidArgument` for every other input.
pub fn normalize_status(status: &str) -> (r: Result<TargetStatus, FacebookApiError>)
    ensures
        r matches Result::Ok(t) ==> spec_status_synonym(status@) == Option::Some(t),
        r is Err ==> spec_status_synonym(status@) is None,
        r matches Result::Err(e) ==> e matches FacebookApiError::InvalidArgument(m) && m@
            == "Invalid status value"@,
{
    proof {
        lemma_synonyms_lowercase();
    }
    if text::eq_ignore_ascii_case(status, "a") || text::eq_ignore_ascii_case(status, "active") {
        Ok(TargetStatus::Active)
    } else if text::eq_ignore_ascii_case(status, "p") || text::eq_ignore_ascii_case(
        status,
        "paused",
    ) {
        Ok(TargetStatus::Paused)
    } else {
        Err(FacebookApiError::InvalidArgument(String::from_str("Invalid status value")))
    }
}

proof fn lemma_lower_fixed(s: Seq<char>)
    requires
        forall|i: int| 0 <= i < s.len() ==> !('A' <= s[i] && s[i] <= 'Z'),
    ensures
        text::spec_lower(s) == s,
{
    assert forall|i: int| 0 <= i < s.len() implies text::spec_lower(s)[i] == s[i] by {
        assert(text::spec_lower(s)[i] == text::spec_lower_char(s[i]));
    }
    assert(text::spec_lower(s) =~= s);
}

proof fn lemma_synonyms_lowercase()
    ensures
        text::spec_lower("a"@) == "a"@,
        text::spec_lower("active"@) == "active"@,
        text::spec_lower("p"@) == "p"@,
        text::spec_lower("paused"@) == "paused"@,
{
    reveal_strlit("a");
    reveal_strlit("active");
    reveal_strlit("p");
    reveal_strlit("paused");
    lemma_lower_fixed("a"@);
    lemma_lower_fixed("active"@);
    lemma_lower_fixed("p"@);
    lemma_lower_fixed("paused"@);
}

/// Whether an ad's effective status differs from the target, so that an
/// update call must be issued for it.
pub open spec fn spec_needs_update(ad: AdData, target: TargetStatus) -> bool {
    ad.effective_status@ != spec_target_text(target)
}

/// The record reported for an ad that was just updated: identity kept, both
/// statuses set to the target, no insight data.
pub open spec fn spec_updated_record(orig: AdData, upd: AdData, target: TargetStatus) -> bool {
    &&& upd.id@ == orig.id@
    &&& upd.name@ == orig.name@
    &&& upd.status@ == spec_target_text(target)
    &&& upd.effective_status@ == spec_target_text(target)
    &&& upd.insights is None
    &&& upd.cost_per_action_type@.len() == 0
}

/// The selection relation: `out` holds one updated record for each ad of
/// `ads` whose effective status differs from the target, in order.
pub open spec fn spec_selection(ads: Seq<AdData>, out: Seq<AdData>, target: TargetStatus) -> bool
    decreases ads.len(),
{
    if ads.len() == 0 {
        out.len() == 0
    } else if spec_needs_update(ads.last(), target) {
        &&& out.len() > 0
        &&& spec_updated_record(ads.last(), out.last(), target)
        &&& spec_selection(ads.drop_last(), out.drop_last(), target)
    } else {
        spec_selection(ads.drop_last(), out, target)
    }
}

/// Picks the ads whose effective status differs from the target and builds
/// the updated record for each, in the order the platform reported them.
pub fn select_ads_to_update(ads: &Vec<AdData>, target: TargetStatus) -> (out: Vec<AdData>)
    ensures
        spec_selection(ads@, out@, target),
{
    let mut out: Vec<AdData> = Vec::new();
    let mut i: usize = 0;
    while i < ads.len()
        invariant
            0 <= i <= ads@.len(),
            spec_selection(ads@.take(i as int), out@, target),
        decreases ads@.len() - i,
    {
        let ghost prefix = ads@.take(i as int);
        let ghost prev_out = out@;
        let target_text = target.as_str();
        if !text::str_eq(ads[i].effective_status.as_str(), target_text) {
            let upd = AdData {
                id: ads[i].id.clone(),
                name: ads[i].name.clone(),
                status: String::from_str(target_text),
                effective_status: String::from_str(target_text),
                insights: None,
                cost_per_action_type: Vec::new(),
            };
            out.push(upd);
            proof {
                assert(out@.drop_last() =~= prev_out);
                assert(spec_updated_record(ads@[i as int], out@.last(), target));
            }
        }
        proof {
            let next = ads@.take(i as int + 1);
            assert(next.drop_last() =~= prefix);
            assert(next.last() == ads@[i as int]);
        }
        i += 1;
    }
    proof {
        assert(ads@.take(ads@.len() as int) =~= ads@);
    }
    out
}

/// Builds the display form of an account's balance from the raw payload
/// leaves: missing names default to `"Unknown"`, a missing status counts as
/// inactive, the currency defaults to `"THB"`, and the raw minor-unit
/// balance is divided by one hundred for display.
pub fn make_account_balance(raw: &RawBalance) -> (b: AccountBalance)
    ensures
        b.name@ == (if raw.name is Some {
            spec_opt_text(raw.name)
        } else {
            "Unknown"@
        }),
        b.id@ == (if raw.id is Some {
            spec_opt_text(raw.id)
        } else {
            "Unknown"@
        }),
        b.status@ == (if spec_opt_i64(raw.account_status) == 1 {
            "Active"@
        } else {
            "Inactive"@
        }),
        b.currency@ == (if raw.currency is Some {
            spec_opt_text(raw.currency)
        } else {
            "THB"@
        }),
        b.available_funds@ == money::spec_balance_string(spec_opt_i64(raw.balance_minor) as int),
{
    let name = match &raw.name {
        Option::Some(s) => s.clone(),
        Option::None => String::from_str("Unknown"),
    };
    let id = match &raw.id {
        Option::Some(s) => s.clone(),
        Option::None => String::from_str("Unknown"),
    };
    let account_status = match raw.account_status {
        Option::Some(v) => v,
        Option::None => 0,
    };
    let status = if account_status == 1 {
        String::from_str("Active")
    } else {
        String::from_str("Inactive")
    };
    let currency = match &raw.currency {
        Option::Some(s) => s.clone(),
        Option::None => String::from_str("THB"),
    };
    let minor = match raw.balance_minor {
        Option::Some(v) => v,
        Option::None => 0,
    };
    let available_funds = money::balance_to_string(minor);
    AccountBalance { name, id, status, currency, available_funds }
}

} // verus!
