use vstd::prelude::*;
use vstd::arithmetic::div_mod::{lemma_div_is_ordered, lemma_fundamental_div_mod};
use crate::agent::{bump, AgentAccount};
use crate::errors::RegistryError;
use crate::principal::Principal;
use crate::text::{check_hex_digest, is_hex_digest, utf8_bytes};

verus! {

/// Highest risk score.
pub const MAX_RISK: u8 = 100;

/// Risk score from which an entry counts as an alert.
pub const ALERT_THRESHOLD: u8 = 75;

/// Highest risk score that still extends the safe streak.
pub const SAFE_THRESHOLD: u8 = 10;

/// Highest average risk of a trusted agent.
pub const TRUSTED_MAX_AVG: u8 = 25;

/// Shortest safe streak of a trusted agent.
pub const TRUSTED_MIN_STREAK: u32 = 10;

/// The kinds of action the audit trail records.
#[derive(Clone, Copy, Debug, PartialEq, Eq, Structural)]
pub enum ActionType {
    AgentRegistered,
    AgentUpdated,
    AgentVerified,
    ChallengeCreated,
    ChallengePassed,
    ChallengeFailed,
    ReputationIncreased,
    ReputationDecreased,
    SecurityAlert,
    Custom,
}

/// Risk bands: 0, 1-25, 26-50, 51-75, 76-100.
#[derive(Clone, Copy, Debug, PartialEq, Eq, Structural)]
pub enum RiskLevel {
    NoRisk,
    Low,
    Medium,
    High,
    Critical,
}

pub open spec fn level_of(score: u8) -> RiskLevel {
    if score == 0 {
        RiskLevel::NoRisk
    } else if score <= 25 {
        RiskLevel::Low
    } else if score <= 50 {
        RiskLevel::Medium
    } else if score <= 75 {
        RiskLevel::High
    } else {
        RiskLevel::Critical
    }
}

/// A representative score of each band.
pub open spec fn level_score(level: RiskLevel) -> u8 {
    match level {
        RiskLevel::NoRisk => 0,
        RiskLevel::Low => 15,
        RiskLevel::Medium => 40,
        RiskLevel::High => 65,
        RiskLevel::Critical => 90,
    }
}

impl RiskLevel {
    /// The band that `score` falls in.
    pub fn from_score(score: u8) -> (r: RiskLevel)
        ensures
            r == level_of(score),
    {
        if score == 0 {
            RiskLevel::NoRisk
        } else if score <= 25 {
            RiskLevel::Low
        } else if score <= 50 {
            RiskLevel::Medium
        } else if score <= 75 {
            RiskLevel::High
        } else {
            RiskLevel::Critical
        }
    }

    /// A representative score of this band, one that lies inside it.
    pub fn to_score(&self) -> (r: u8)
        ensures
            r == level_score(*self),
            level_of(r) == *self,
    {
        match self {
            RiskLevel::NoRisk => 0,
            RiskLevel::Low => 15,
            RiskLevel::Medium => 40,
            RiskLevel::High => 65,
            RiskLevel::Critical => 90,
        }
    }
}

/// The fixed risk weight of an action; a custom action weighs what the
/// caller says.
pub open spec fn base_weight(action: ActionType, context_risk: u8) -> int {
    match action {
        ActionType::AgentRegistered => 0,
        ActionType::AgentUpdated => 5,
        ActionType::AgentVerified => 0,
        ActionType::ChallengeCreated => 10,
        ActionType::ChallengePassed => 0,
        ActionType::ChallengeFailed => 25,
        ActionType::ReputationIncreased => 0,
        ActionType::ReputationDecreased => 20,
        ActionType::SecurityAlert => 75,
        ActionType::Custom => context_risk as int,
    }
}

/// `min(100, base weight + context risk)`.
pub open spec fn risk_score_of(action: ActionType, context_risk: u8) -> u8 {
    if base_weight(action, context_risk) + context_risk > 100 {
        100
    } else {
        (base_weight(action, context_risk) + context_risk) as u8
    }
}

/// An entry is an alert when it is a security alert or scores 75 or more.
pub open spec fn is_alert_of(action: ActionType, score: u8) -> bool {
    action == ActionType::SecurityAlert || score >= ALERT_THRESHOLD
}

/// One immutable record of the audit trail.
#[derive(Clone, Debug)]
pub struct AuditEntry {
    pub agent_id: u64,
    pub actor: Principal,
    pub action_type: ActionType,
    pub risk_score: u8,
    pub risk_level: RiskLevel,
    pub timestamp: i64,
    pub details_hash: String,
    pub audit_index: u64,
}

impl AuditEntry {
    /// The risk score of an action in context: `min(100, weight + context)`.
    pub fn calculate_risk_score(action_type: &ActionType, context_risk: u8) -> (r: u8)
        ensures
            r == risk_score_of(*action_type, context_risk),
            r <= MAX_RISK,
    {
        let base_risk: u8 = match action_type {
            ActionType::AgentRegistered => 0,
            ActionType::AgentUpdated => 5,
            ActionType::AgentVerified => 0,
            ActionType::ChallengeCreated => 10,
            ActionType::ChallengePassed => 0,
            ActionType::ChallengeFailed => 25,
            ActionType::ReputationIncreased => 0,
            ActionType::ReputationDecreased => 20,
            ActionType::SecurityAlert => 75,
            ActionType::Custom => context_risk,
        };
        let sum = base_risk.saturating_add(context_risk);
        if sum > MAX_RISK {
            MAX_RISK
        } else {
            sum
        }
    }
}

/// Running statistics of one agent's audit trail.
#[derive(Clone, Copy, Debug, PartialEq, Eq, Structural)]
pub struct AgentAuditSummary {
    pub agent_id: u64,
    pub total_entries: u64,
    pub security_alerts: u32,
    pub avg_risk_score: u8,
    pub max_risk_score: u8,
    pub last_audit_at: i64,
    pub safe_streak: u32,
}

/// The mean after one more score, from the previous mean of `n` scores:
/// `floor((avg * n + score) / (n + 1))`.
pub open spec fn next_average(avg: int, n: int, score: int) -> int {
    (avg * n + score) / (n + 1)
}

/// The summary after one more entry.
pub open spec fn summary_after(s: AgentAuditSummary, score: u8, alert: bool, timestamp: i64) -> AgentAuditSummary {
    AgentAuditSummary {
        total_entries: (s.total_entries + 1) as u64,
        security_alerts: if alert {
            bump(s.security_alerts)
        } else {
            s.security_alerts
        },
        safe_streak: if alert {
            0
        } else if score <= SAFE_THRESHOLD {
            bump(s.safe_streak)
        } else {
            s.safe_streak
        },
        max_risk_score: if score > s.max_risk_score {
            score
        } else {
            s.max_risk_score
        },
        avg_risk_score: next_average(s.avg_risk_score as int, s.total_entries as int, score as int) as u8,
        last_audit_at: timestamp,
        ..s
    }
}

/// The summary of an agent with no entries yet.
pub open spec fn empty_summary(agent_id: u64) -> AgentAuditSummary {
    AgentAuditSummary {
        agent_id,
        total_entries: 0,
        security_alerts: 0,
        avg_risk_score: 0,
        max_risk_score: 0,
        last_audit_at: 0,
        safe_streak: 0,
    }
}

pub open spec fn trusted(s: AgentAuditSummary) -> bool {
    s.avg_risk_score <= TRUSTED_MAX_AVG && s.safe_streak >= TRUSTED_MIN_STREAK && s.security_alerts == 0
}

proof fn lemma_next_average_bound(avg: int, n: int, score: int, bound: int)
    requires
        0 <= avg <= bound,
        0 <= score <= bound,
        0 <= n,
    ensures
        0 <= next_average(avg, n, score) <= bound,
{
    assert(0 <= avg * n + score <= bound * (n + 1)) by (nonlinear_arith)
        requires
            0 <= avg <= bound,
            0 <= score <= bound,
            0 <= n,
    ;
    assert((avg * n + score) / (n + 1) <= bound) by (nonlinear_arith)
        requires
            0 <= avg * n + score <= bound * (n + 1),
            0 <= n,
    ;
}

impl AgentAuditSummary {
    /// The summary of an agent with no entries yet.
    pub fn new(agent_id: u64) -> (r: AgentAuditSummary)
        ensures
            r == empty_summary(agent_id),
    {
        AgentAuditSummary {
            agent_id,
            total_entries: 0,
            security_alerts: 0,
            avg_risk_score: 0,
            max_risk_score: 0,
            last_audit_at: 0,
            safe_streak: 0,
        }
    }

    /// Folds one entry into the statistics.
    pub fn record_entry(&mut self, risk_score: u8, is_alert: bool, timestamp: i64)
        requires
            old(self).total_entries < u64::MAX,
        ensures
            *final(self) == summary_after(*old(self), risk_score, is_alert, timestamp),
            final(self).avg_risk_score as int == next_average(
                old(self).avg_risk_score as int,
                old(self).total_entries as int,
                risk_score as int,
            ),
    {
        let n = self.total_entries;
        self.total_entries = n + 1;
        if is_alert {
            self.security_alerts = self.security_alerts.saturating_add(1);
            self.safe_streak = 0;
        } else if risk_score <= SAFE_THRESHOLD {
            self.safe_streak = self.safe_streak.saturating_add(1);
        }
        if risk_score > self.max_risk_score {
            self.max_risk_score = risk_score;
        }
        let old_avg = self.avg_risk_score as u128;
        proof {
            lemma_next_average_bound(old_avg as int, n as int, risk_score as int, 255);
            assert(old_avg * (n as u128) <= 255 * 0x1_0000_0000_0000_0000) by (nonlinear_arith)
                requires
                    old_avg <= 255,
                    n < 0x1_0000_0000_0000_0000,
            ;
        }
        let total: u128 = old_avg * (n as u128) + risk_score as u128;
        self.avg_risk_score = (total / (n as u128 + 1)) as u8;
        self.last_audit_at = timestamp;
    }

    /// Good standing: average risk at most 25, at least 10 safe entries in a
    /// row, and no alert ever.
    pub fn is_trusted(&self) -> (r: bool)
        ensures
            r == trusted(*self),
    {
        self.avg_risk_score <= TRUSTED_MAX_AVG && self.safe_streak >= TRUSTED_MIN_STREAK
            && self.security_alerts == 0
    }
}

/// What a query of an agent's audit standing returns.
#[derive(Clone, Copy, Debug, PartialEq, Eq, Structural)]
pub struct AuditStatusResponse {
    pub total_entries: u64,
    pub security_alerts: u32,
    pub avg_risk_score: u8,
    pub max_risk_score: u8,
    pub safe_streak: u32,
    pub is_trusted: bool,
    pub last_audit_at: i64,
}

/// The failure, if any, of logging an entry.
pub open spec fn log_error(
    summary: AgentAuditSummary,
    agent: AgentAccount,
    context_risk: u8,
    details_hash: Seq<char>,
) -> Option<RegistryError> {
    if summary.agent_id != agent.agent_id {
        Some(RegistryError::AuditSummaryNotFound)
    } else if !is_hex_digest(utf8_bytes(details_hash)) {
        Some(RegistryError::InvalidDetailsHash)
    } else if context_risk > MAX_RISK {
        Some(RegistryError::InvalidRiskScore)
    } else if summary.total_entries == u64::MAX {
        Some(RegistryError::RegistryFull)
    } else {
        None
    }
}

/// Appends an entry to the agent's audit trail at the next index, and folds
/// it into the agent's summary.
pub fn log_audit(
    summary: &mut AgentAuditSummary,
    agent: &AgentAccount,
    actor: Principal,
    action_type: ActionType,
    context_risk: u8,
    details_hash: String,
    now: i64,
) -> (r: Result<AuditEntry, RegistryError>)
    ensures
        match r {
            Ok(e) => {
                let score = risk_score_of(action_type, context_risk);
                &&& log_error(*old(summary), *agent, context_risk, details_hash@) is None
                &&& e.agent_id == agent.agent_id
                &&& e.actor == actor
                &&& e.action_type == action_type
                &&& e.risk_score == score
                &&& e.risk_level == level_of(score)
                &&& e.timestamp == now
                &&& e.details_hash@ == details_hash@
                &&& e.audit_index == old(summary).total_entries
                &&& *final(summary) == summary_after(
                    *old(summary),
                    score,
                    is_alert_of(action_type, score),
                    now,
                )
            },
            Err(e) => log_error(*old(summary), *agent, context_risk, details_hash@) == Some(e)
                && *final(summary) == *old(summary),
        },
{
    if summary.agent_id != agent.agent_id {
        return Err(RegistryError::AuditSummaryNotFound);
    }
    if !check_hex_digest(&details_hash) {
        return Err(RegistryError::InvalidDetailsHash);
    }
    if context_risk > MAX_RISK {
        return Err(RegistryError::InvalidRiskScore);
    }
    if summary.total_entries == u64::MAX {
        return Err(RegistryError::RegistryFull);
    }
    let risk_score = AuditEntry::calculate_risk_score(&action_type, context_risk);
    let risk_level = RiskLevel::from_score(risk_score);
    let is_alert = action_type == ActionType::SecurityAlert || risk_score >= ALERT_THRESHOLD;
    let entry = AuditEntry {
        agent_id: agent.agent_id,
        actor,
        action_type,
        risk_score,
        risk_level,
        timestamp: now,
        details_hash,
        audit_index: summary.total_entries,
    };
    summary.record_entry(risk_score, is_alert, now);
    Ok(entry)
}

/// The agent's audit standing, read from its summary.
pub fn get_audit_status(summary: &AgentAuditSummary) -> (r: AuditStatusResponse)
    ensures
        r == (AuditStatusResponse {
            total_entries: summary.total_entries,
            security_alerts: summary.security_alerts,
            avg_risk_score: summary.avg_risk_score,
            max_risk_score: summary.max_risk_score,
            safe_streak: summary.safe_streak,
            is_trusted: trusted(*summary),
            last_audit_at: summary.last_audit_at,
        }),
{
    AuditStatusResponse {
        total_entries: summary.total_entries,
        security_alerts: summary.security_alerts,
        avg_risk_score: summary.avg_risk_score,
        max_risk_score: summary.max_risk_score,
        safe_streak: summary.safe_streak,
        is_trusted: summary.is_trusted(),
        last_audit_at: summary.last_audit_at,
    }
}

/// The summary after a run of entries, each a score, whether it is an
/// alert, and its time.
pub open spec fn summary_after_all(s: AgentAuditSummary, entries: Seq<(u8, bool, i64)>) -> AgentAuditSummary
    decreases entries.len(),
{
    if entries.len() == 0 {
        s
    } else {
        let e = entries.last();
        summary_after(summary_after_all(s, entries.drop_last()), e.0, e.1, e.2)
    }
}

/// The scores of a run of entries.
pub open spec fn scores_of(entries: Seq<(u8, bool, i64)>) -> Seq<u8> {
    entries.map_values(|e: (u8, bool, i64)| e.0)
}

/// The sum of the scores.
pub open spec fn score_sum(scores: Seq<u8>) -> int
    decreases scores.len(),
{
    if scores.len() == 0 {
        0
    } else {
        score_sum(scores.drop_last()) + scores.last() as int
    }
}

/// The true mean of the scores, rounded down; 0 when there are none.
pub open spec fn mean_floor(scores: Seq<u8>) -> int {
    if scores.len() == 0 {
        0
    } else {
        score_sum(scores) / (scores.len() as int)
    }
}

/// The average kept one score at a time by `next_average`.
pub open spec fn rolling_average(scores: Seq<u8>) -> int
    decreases scores.len(),
{
    if scores.len() == 0 {
        0
    } else {
        next_average(
            rolling_average(scores.drop_last()),
            scores.len() - 1,
            scores.last() as int,
        )
    }
}

/// After any run of entries on a fresh summary, the summary counts them all
/// and its average is the rolling average of their scores.
pub proof fn lemma_summary_average(agent_id: u64, entries: Seq<(u8, bool, i64)>)
    requires
        entries.len() < u64::MAX,
    ensures
        summary_after_all(empty_summary(agent_id), entries).total_entries == entries.len(),
        summary_after_all(empty_summary(agent_id), entries).avg_risk_score == rolling_average(
            scores_of(entries),
        ),
    decreases entries.len(),
{
    if entries.len() > 0 {
        let prev = entries.drop_last();
        lemma_summary_average(agent_id, prev);
        let s = summary_after_all(empty_summary(agent_id), prev);
        assert(scores_of(entries).drop_last() =~= scores_of(prev));
        let e = entries.last();
        lemma_next_average_bound(s.avg_risk_score as int, s.total_entries as int, e.0 as int, 255);
    }
}

/// The rolling average never exceeds the true mean rounded down. It can
/// fall below it: scores 0, 1, 2 give 0 against a mean of 1.
pub proof fn lemma_rolling_average_at_most_mean(scores: Seq<u8>)
    ensures
        0 <= rolling_average(scores) <= mean_floor(scores),
    decreases scores.len(),
{
    if scores.len() > 0 {
        let prev = scores.drop_last();
        let m = prev.len() as int;
        let x = scores.last() as int;
        let a = rolling_average(prev);
        let total = score_sum(prev);
        lemma_rolling_average_at_most_mean(prev);
        lemma_score_sum_nonneg(prev);
        if m == 0 {
            assert(a * m == 0);
        } else {
            lemma_fundamental_div_mod(total, m);
            assert(a * m <= total) by (nonlinear_arith)
                requires
                    0 <= a <= total / m,
                    total == m * (total / m) + total % m,
                    0 <= total % m,
                    0 < m,
            ;
        }
        assert(0 <= a * m) by (nonlinear_arith)
            requires
                0 <= a,
                0 <= m,
        ;
        lemma_div_is_ordered(a * m + x, total + x, m + 1);
        lemma_div_is_ordered(0, a * m + x, m + 1);
    }
}

proof fn lemma_score_sum_nonneg(scores: Seq<u8>)
    ensures
        0 <= score_sum(scores),
    decreases scores.len(),
{
    if scores.len() > 0 {
        lemma_score_sum_nonneg(scores.drop_last());
    }
}

/// Where the average before the last score was exact (no remainder was
/// dropped), the rolling average equals the true mean rounded down.
pub proof fn lemma_rolling_average_exact(scores: Seq<u8>)
    requires
        scores.len() > 0,
        rolling_average(scores.drop_last()) * (scores.len() - 1) == score_sum(scores.drop_last()),
    ensures
        rolling_average(scores) == mean_floor(scores),
{
}

/// Over one or two scores the rolling average is the true mean rounded down.
pub proof fn lemma_rolling_average_exact_short(scores: Seq<u8>)
    requires
        1 <= scores.len() <= 2,
    ensures
        rolling_average(scores) == mean_floor(scores),
{
    let prev = scores.drop_last();
    if prev.len() == 1 {
        let none = prev.drop_last();
        assert(none.len() == 0);
        assert(rolling_average(none) == 0);
        assert(score_sum(none) == 0);
        assert(rolling_average(prev) == prev.last() as int);
        assert(score_sum(prev) == prev.last() as int);
    } else {
        assert(rolling_average(prev) == 0);
        assert(score_sum(prev) == 0);
    }
    lemma_rolling_average_exact(scores);
}

} // verus!
