use vstd::prelude::*;
use crate::agent::{bump, clamp_score, AgentAccount};
use crate::errors::{class_of, ErrorClass, RegistryError};
use crate::principal::Principal;
use crate::text::{byte_len, text_len};

verus! {

/// How long a challenge stays open, in seconds.
pub const DEFAULT_DURATION: i64 = 3600;

/// Reputation gained by passing a challenge.
pub const PASS_REPUTATION_DELTA: i32 = 100;

/// Reputation lost by failing a challenge or letting it expire.
pub const FAIL_REPUTATION_DELTA: i32 = -50;

/// Longest question, in bytes.
pub const MAX_QUESTION_LEN: usize = 256;

/// Length of an answer hash, in bytes.
pub const HASH_LEN: usize = 64;

/// Where a challenge stands. `Pending` is the only state that moves, and
/// nothing moves back to it.
#[derive(Clone, Copy, Debug, PartialEq, Eq, Structural)]
pub enum ChallengeStatus {
    Pending,
    Passed,
    Failed,
    Expired,
}

impl Default for ChallengeStatus {
    fn default() -> (r: ChallengeStatus)
        ensures
            r == ChallengeStatus::Pending,
    {
        ChallengeStatus::Pending
    }
}

/// The key a challenge is stored under: one agent and challenger may run
/// several challenges at once, told apart by the nonce.
#[derive(Clone, Copy, Debug, PartialEq, Eq, Structural)]
pub struct ChallengeKey {
    pub agent_id: u64,
    pub challenger: Principal,
    pub nonce: u64,
}

/// One verification challenge put to an agent.
#[derive(Clone, Debug)]
pub struct Challenge {
    pub agent_id: u64,
    pub challenger: Principal,
    pub question: String,
    pub expected_hash: String,
    pub status: ChallengeStatus,
    pub created_at: i64,
    pub expires_at: i64,
    pub responded_at: i64,
    pub nonce: u64,
}

impl Challenge {
    /// Whether the deadline has passed at `now`.
    pub fn is_expired(&self, now: i64) -> (r: bool)
        ensures
            r == (now > self.expires_at),
    {
        now > self.expires_at
    }

    /// The key this challenge is stored under.
    pub fn key(&self) -> (r: ChallengeKey)
        ensures
            r == (ChallengeKey {
                agent_id: self.agent_id,
                challenger: self.challenger,
                nonce: self.nonce,
            }),
    {
        ChallengeKey { agent_id: self.agent_id, challenger: self.challenger, nonce: self.nonce }
    }
}

/// The failure, if any, of creating a challenge with these fields.
pub open spec fn create_challenge_error(question: Seq<char>, expected_hash: Seq<char>) -> Option<
    RegistryError,
> {
    if byte_len(question) > MAX_QUESTION_LEN {
        Some(RegistryError::QuestionTooLong)
    } else if byte_len(expected_hash) != HASH_LEN {
        Some(RegistryError::InvalidExpectedHash)
    } else {
        None
    }
}

/// Opens a challenge to `agent`, pending until `now + 3600`.
pub fn create_challenge(
    challenger: Principal,
    agent: &AgentAccount,
    question: String,
    expected_hash: String,
    nonce: u64,
    now: i64,
) -> (r: Result<Challenge, RegistryError>)
    requires
        now <= i64::MAX - DEFAULT_DURATION,
    ensures
        match r {
            Ok(c) => {
                &&& create_challenge_error(question@, expected_hash@) is None
                &&& c.agent_id == agent.agent_id
                &&& c.challenger == challenger
                &&& c.question@ == question@
                &&& c.expected_hash@ == expected_hash@
                &&& c.status == ChallengeStatus::Pending
                &&& c.created_at == now
                &&& c.expires_at == now + DEFAULT_DURATION
                &&& c.responded_at == 0
                &&& c.nonce == nonce
            },
            Err(e) => create_challenge_error(question@, expected_hash@) == Some(e),
        },
{
    if text_len(&question) > MAX_QUESTION_LEN {
        return Err(RegistryError::QuestionTooLong);
    }
    if text_len(&expected_hash) != HASH_LEN {
        return Err(RegistryError::InvalidExpectedHash);
    }
    Ok(
        Challenge {
            agent_id: agent.agent_id,
            challenger,
            question,
            expected_hash,
            status: ChallengeStatus::Pending,
            created_at: now,
            expires_at: now + DEFAULT_DURATION,
            responded_at: 0,
            nonce,
        },
    )
}

/// The agent after one of its challenges is resolved: a pass adds 100 and
/// counts a pass; a failure or an expiry takes 50 and counts a failure.
pub open spec fn agent_after_resolution(agent: AgentAccount, passed: bool, now: i64) -> AgentAccount {
    if passed {
        AgentAccount {
            reputation_score: clamp_score(agent.reputation_score as int, PASS_REPUTATION_DELTA as int) as u32,
            challenges_passed: bump(agent.challenges_passed),
            updated_at: now,
            ..agent
        }
    } else {
        AgentAccount {
            reputation_score: clamp_score(agent.reputation_score as int, FAIL_REPUTATION_DELTA as int) as u32,
            challenges_failed: bump(agent.challenges_failed),
            updated_at: now,
            ..agent
        }
    }
}

/// The failure, if any, of a response.
pub open spec fn respond_error(
    owner: Principal,
    agent: AgentAccount,
    challenge: Challenge,
    response_hash: Seq<char>,
    now: i64,
) -> Option<RegistryError> {
    if owner != agent.owner {
        Some(RegistryError::Unauthorized)
    } else if challenge.agent_id != agent.agent_id {
        Some(RegistryError::ChallengeMismatch)
    } else if challenge.status != ChallengeStatus::Pending {
        Some(RegistryError::ChallengeNotPending)
    } else if now > challenge.expires_at {
        Some(RegistryError::ChallengeExpired)
    } else if byte_len(response_hash) != HASH_LEN {
        Some(RegistryError::InvalidResponseHash)
    } else {
        None
    }
}

/// The challenge after a response: passed exactly when the response equals
/// the expected hash.
pub open spec fn responded(challenge: Challenge, response_hash: Seq<char>, now: i64) -> Challenge {
    Challenge {
        status: if response_hash == challenge.expected_hash@ {
            ChallengeStatus::Passed
        } else {
            ChallengeStatus::Failed
        },
        responded_at: now,
        ..challenge
    }
}

/// The agent's owner answers a pending challenge before its deadline.
pub fn submit_response(
    owner: Principal,
    agent: &mut AgentAccount,
    challenge: &mut Challenge,
    response_hash: String,
    now: i64,
) -> (r: Result<(), RegistryError>)
    ensures
        match r {
            Ok(()) => {
                &&& respond_error(owner, *old(agent), *old(challenge), response_hash@, now) is None
                &&& *final(challenge) == responded(*old(challenge), response_hash@, now)
                &&& *final(agent) == agent_after_resolution(
                    *old(agent),
                    response_hash@ == old(challenge).expected_hash@,
                    now,
                )
            },
            Err(e) => {
                &&& respond_error(owner, *old(agent), *old(challenge), response_hash@, now) == Some(e)
                &&& *final(agent) == *old(agent)
                &&& *final(challenge) == *old(challenge)
            },
        },
        old(agent).wf() ==> final(agent).wf(),
{
    if !owner.same(&agent.owner) {
        return Err(RegistryError::Unauthorized);
    }
    if challenge.agent_id != agent.agent_id {
        return Err(RegistryError::ChallengeMismatch);
    }
    if challenge.status != ChallengeStatus::Pending {
        return Err(RegistryError::ChallengeNotPending);
    }
    if challenge.is_expired(now) {
        return Err(RegistryError::ChallengeExpired);
    }
    if text_len(&response_hash) != HASH_LEN {
        return Err(RegistryError::InvalidResponseHash);
    }
    challenge.responded_at = now;
    if response_hash == challenge.expected_hash {
        challenge.status = ChallengeStatus::Passed;
        agent.challenges_passed = agent.challenges_passed.saturating_add(1);
        agent.adjust_reputation(PASS_REPUTATION_DELTA);
    } else {
        challenge.status = ChallengeStatus::Failed;
        agent.challenges_failed = agent.challenges_failed.saturating_add(1);
        agent.adjust_reputation(FAIL_REPUTATION_DELTA);
    }
    agent.updated_at = now;
    Ok(())
}

/// The failure, if any, of expiring a challenge.
pub open spec fn expire_error(agent: AgentAccount, challenge: Challenge, now: i64) -> Option<RegistryError> {
    if challenge.agent_id != agent.agent_id {
        Some(RegistryError::ChallengeMismatch)
    } else if challenge.status != ChallengeStatus::Pending {
        Some(RegistryError::ChallengeNotPending)
    } else if now <= challenge.expires_at {
        Some(RegistryError::ChallengeNotExpired)
    } else {
        None
    }
}

/// The challenge after it expired at `now`.
pub open spec fn expired(challenge: Challenge, now: i64) -> Challenge {
    Challenge { status: ChallengeStatus::Expired, responded_at: now, ..challenge }
}

/// Expires a pending challenge whose deadline has passed. Anyone may call
/// this; the agent is penalised as for a wrong answer.
pub fn expire_challenge(agent: &mut AgentAccount, challenge: &mut Challenge, now: i64) -> (r: Result<
    (),
    RegistryError,
>)
    ensures
        match r {
            Ok(()) => {
                &&& expire_error(*old(agent), *old(challenge), now) is None
                &&& *final(challenge) == expired(*old(challenge), now)
                &&& *final(agent) == agent_after_resolution(*old(agent), false, now)
            },
            Err(e) => {
                &&& expire_error(*old(agent), *old(challenge), now) == Some(e)
                &&& *final(agent) == *old(agent)
                &&& *final(challenge) == *old(challenge)
            },
        },
        old(agent).wf() ==> final(agent).wf(),
{
    if challenge.agent_id != agent.agent_id {
        return Err(RegistryError::ChallengeMismatch);
    }
    if challenge.status != ChallengeStatus::Pending {
        return Err(RegistryError::ChallengeNotPending);
    }
    if !challenge.is_expired(now) {
        return Err(RegistryError::ChallengeNotExpired);
    }
    challenge.status = ChallengeStatus::Expired;
    challenge.responded_at = now;
    agent.challenges_failed = agent.challenges_failed.saturating_add(1);
    agent.adjust_reputation(FAIL_REPUTATION_DELTA);
    agent.updated_at = now;
    Ok(())
}

/// The failure, if any, of closing a challenge.
pub open spec fn close_error(caller: Principal, challenge: Challenge) -> Option<RegistryError> {
    if caller != challenge.challenger {
        Some(RegistryError::Unauthorized)
    } else if challenge.status == ChallengeStatus::Pending {
        Some(RegistryError::ChallengeStillPending)
    } else {
        None
    }
}

/// Whether the caller may reclaim the challenge's storage: only the
/// challenger who opened it, and only once it is resolved. Reputation is
/// not touched.
pub fn close_challenge(caller: Principal, challenge: &Challenge) -> (r: Result<(), RegistryError>)
    ensures
        match r {
            Ok(()) => close_error(caller, *challenge) is None,
            Err(e) => close_error(caller, *challenge) == Some(e),
        },
{
    if !caller.same(&challenge.challenger) {
        return Err(RegistryError::Unauthorized);
    }
    if challenge.status == ChallengeStatus::Pending {
        return Err(RegistryError::ChallengeStillPending);
    }
    Ok(())
}

/// Once a challenge has left `Pending` it stays resolved: no response and no
/// expiry succeeds on it, whoever calls and whenever, and its challenger may
/// close it.
pub proof fn lemma_resolution_is_final(
    owner: Principal,
    agent: AgentAccount,
    challenge: Challenge,
    response_hash: Seq<char>,
    now: i64,
)
    requires
        challenge.status != ChallengeStatus::Pending,
    ensures
        respond_error(owner, agent, challenge, response_hash, now) is Some,
        expire_error(agent, challenge, now) is Some,
        close_error(challenge.challenger, challenge) is None,
{
}

/// A pending challenge resolves into exactly one terminal state: a response
/// gives `Passed` or `Failed`, an expiry gives `Expired`, the two never both
/// succeed at one time, and after either, no further resolution succeeds.
pub proof fn lemma_challenge_resolves_once(
    owner: Principal,
    agent: AgentAccount,
    challenge: Challenge,
    response_hash: Seq<char>,
    now: i64,
    later_owner: Principal,
    later_response: Seq<char>,
    later: i64,
)
    requires
        challenge.status == ChallengeStatus::Pending,
    ensures
        !(respond_error(owner, agent, challenge, response_hash, now) is None && expire_error(
            agent,
            challenge,
            now,
        ) is None),
        respond_error(owner, agent, challenge, response_hash, now) is None ==> {
            let c = responded(challenge, response_hash, now);
            &&& (c.status == ChallengeStatus::Passed || c.status == ChallengeStatus::Failed)
            &&& (c.status == ChallengeStatus::Passed <==> response_hash == challenge.expected_hash@)
            &&& respond_error(later_owner, agent, c, later_response, later) is Some
            &&& expire_error(agent, c, later) is Some
        },
        expire_error(agent, challenge, now) is None ==> {
            let c = expired(challenge, now);
            &&& c.status == ChallengeStatus::Expired
            &&& respond_error(later_owner, agent, c, later_response, later) is Some
            &&& expire_error(agent, c, later) is Some
        },
{
}

/// Closing succeeds only on a resolved challenge, and only for its challenger.
pub proof fn lemma_close_needs_resolution(caller: Principal, challenge: Challenge)
    ensures
        close_error(caller, challenge) is None <==> (caller == challenge.challenger && challenge.status
            != ChallengeStatus::Pending),
{
}

/// Expiring a challenge of this agent that is already resolved fails with
/// `ChallengeNotPending`, a precondition failure; `expire_challenge` then
/// leaves the agent's reputation as it was.
pub proof fn lemma_expire_after_resolution(agent: AgentAccount, challenge: Challenge, now: i64)
    requires
        challenge.agent_id == agent.agent_id,
        challenge.status != ChallengeStatus::Pending,
    ensures
        expire_error(agent, challenge, now) == Some(RegistryError::ChallengeNotPending),
        class_of(RegistryError::ChallengeNotPending) == ErrorClass::PreconditionFailed,
{
}

} // verus!
