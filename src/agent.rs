use vstd::prelude::*;
use crate::errors::RegistryError;
use crate::principal::Principal;
use crate::registry::RegistryState;
use crate::text::{byte_len, is_model_hash, text_len, utf8_bytes};

verus! {

/// Reputation of a newly registered agent (50.00%).
pub const INITIAL_REPUTATION: u32 = 5000;

/// Highest reputation score (100.00%).
pub const MAX_REPUTATION: u32 = 10000;

/// Lowest reputation score (0.00%).
pub const MIN_REPUTATION: u32 = 0;

/// Largest magnitude of a direct reputation change.
pub const MAX_REPUTATION_DELTA: i32 = 1000;

/// Longest agent name, in bytes.
pub const MAX_NAME_LEN: usize = 64;

/// Longest capabilities string, in bytes.
pub const MAX_CAPABILITIES_LEN: usize = 256;

/// `score + delta`, clamped into `[0, 10000]`.
pub open spec fn clamp_score(score: int, delta: int) -> int {
    if score + delta < 0 {
        0
    } else if score + delta > 10000 {
        10000
    } else {
        score + delta
    }
}

/// `c + 1`, saturating at `u32::MAX`.
pub open spec fn bump(c: u32) -> u32 {
    if c == u32::MAX {
        c
    } else {
        (c + 1) as u32
    }
}

/// The identity record and reputation of one registered agent.
#[derive(Clone, Debug)]
pub struct AgentAccount {
    pub agent_id: u64,
    pub owner: Principal,
    pub name: String,
    pub model_hash: String,
    pub capabilities: String,
    pub reputation_score: u32,
    pub challenges_passed: u32,
    pub challenges_failed: u32,
    pub verified: bool,
    pub created_at: i64,
    pub updated_at: i64,
    /// The identity token given at registration. It is stored as given:
    /// nothing here checks that it belongs to the registry's collection or
    /// to the owner.
    pub nft_mint: Principal,
}

impl AgentAccount {
    /// Field limits that registration and every later change keep.
    pub open spec fn wf(&self) -> bool {
        &&& self.reputation_score <= MAX_REPUTATION
        &&& byte_len(self.name@) <= MAX_NAME_LEN
        &&& byte_len(self.capabilities@) <= MAX_CAPABILITIES_LEN
        &&& is_model_hash(utf8_bytes(self.model_hash@))
    }

    /// Adds `delta` to the reputation score, clamped into `[0, 10000]`.
    /// Nothing else changes.
    pub fn adjust_reputation(&mut self, delta: i32)
        ensures
            final(self).reputation_score == clamp_score(old(self).reputation_score as int, delta as int),
            final(self).reputation_score <= MAX_REPUTATION,
            *final(self) == (AgentAccount { reputation_score: final(self).reputation_score, ..*old(self) }),
    {
        let new_score: i64 = self.reputation_score as i64 + delta as i64;
        self.reputation_score = if new_score < MIN_REPUTATION as i64 {
            MIN_REPUTATION
        } else if new_score > MAX_REPUTATION as i64 {
            MAX_REPUTATION
        } else {
            new_score as u32
        };
    }
}

/// The failure, if any, of `update_agent` on these inputs.
pub open spec fn update_agent_error(
    agent: AgentAccount,
    caller: Principal,
    name: Option<String>,
    capabilities: Option<String>,
) -> Option<RegistryError> {
    if caller != agent.owner {
        Some(RegistryError::Unauthorized)
    } else if name is Some && byte_len(name->Some_0@) > MAX_NAME_LEN {
        Some(RegistryError::NameTooLong)
    } else if capabilities is Some && byte_len(capabilities->Some_0@) > MAX_CAPABILITIES_LEN {
        Some(RegistryError::CapabilitiesTooLong)
    } else {
        None
    }
}

/// Replaces the name and capabilities that are given. Only the owner may.
pub fn update_agent(
    agent: &mut AgentAccount,
    caller: Principal,
    name: Option<String>,
    capabilities: Option<String>,
    now: i64,
) -> (r: Result<(), RegistryError>)
    ensures
        match r {
            Ok(()) => {
                &&& update_agent_error(*old(agent), caller, name, capabilities) is None
                &&& final(agent).name@ == (match name {
                    Some(n) => n@,
                    None => old(agent).name@,
                })
                &&& final(agent).capabilities@ == (match capabilities {
                    Some(c) => c@,
                    None => old(agent).capabilities@,
                })
                &&& *final(agent) == (AgentAccount {
                    name: final(agent).name,
                    capabilities: final(agent).capabilities,
                    updated_at: now,
                    ..*old(agent)
                })
            },
            Err(e) => update_agent_error(*old(agent), caller, name, capabilities) == Some(e)
                && *final(agent) == *old(agent),
        },
        old(agent).wf() ==> final(agent).wf(),
{
    if !caller.same(&agent.owner) {
        return Err(RegistryError::Unauthorized);
    }
    match &name {
        Some(n) => {
            if text_len(n) > MAX_NAME_LEN {
                return Err(RegistryError::NameTooLong);
            }
        },
        None => {},
    }
    match &capabilities {
        Some(c) => {
            if text_len(c) > MAX_CAPABILITIES_LEN {
                return Err(RegistryError::CapabilitiesTooLong);
            }
        },
        None => {},
    }
    match name {
        Some(n) => {
            agent.name = n;
        },
        None => {},
    }
    match capabilities {
        Some(c) => {
            agent.capabilities = c;
        },
        None => {},
    }
    agent.updated_at = now;
    Ok(())
}

/// Marks the agent verified. Only the registry's admin may, and only once.
pub fn verify_agent(agent: &mut AgentAccount, registry: &RegistryState, caller: Principal, now: i64) -> (r:
    Result<(), RegistryError>)
    ensures
        caller != registry.admin ==> r == Err::<(), RegistryError>(RegistryError::Unauthorized),
        caller == registry.admin && old(agent).verified ==> r == Err::<(), RegistryError>(
            RegistryError::AlreadyVerified,
        ),
        r is Err ==> *final(agent) == *old(agent),
        caller == registry.admin && !old(agent).verified ==> r is Ok && *final(agent) == (AgentAccount {
            verified: true,
            updated_at: now,
            ..*old(agent)
        }),
{
    if !caller.same(&registry.admin) {
        return Err(RegistryError::Unauthorized);
    }
    if agent.verified {
        return Err(RegistryError::AlreadyVerified);
    }
    agent.verified = true;
    agent.updated_at = now;
    Ok(())
}

/// The failure, if any, of a direct reputation change.
pub open spec fn update_reputation_error(registry: RegistryState, caller: Principal, delta: i32) -> Option<
    RegistryError,
> {
    if caller != registry.admin {
        Some(RegistryError::Unauthorized)
    } else if delta < -1000 || delta > 1000 {
        Some(RegistryError::ReputationDeltaTooLarge)
    } else {
        None
    }
}

/// The agent after a successful direct reputation change by `delta`: the
/// score is clamped, and a positive change counts as a pass, a negative one
/// as a failure.
pub open spec fn reputation_updated(agent: AgentAccount, delta: i32, now: i64) -> AgentAccount {
    AgentAccount {
        reputation_score: clamp_score(agent.reputation_score as int, delta as int) as u32,
        challenges_passed: if delta > 0 {
            bump(agent.challenges_passed)
        } else {
            agent.challenges_passed
        },
        challenges_failed: if delta < 0 {
            bump(agent.challenges_failed)
        } else {
            agent.challenges_failed
        },
        updated_at: now,
        ..agent
    }
}

/// Direct reputation change by the registry's admin, of at most 1000 either way.
pub fn update_reputation(
    agent: &mut AgentAccount,
    registry: &RegistryState,
    caller: Principal,
    delta: i32,
    now: i64,
) -> (r: Result<(), RegistryError>)
    ensures
        match r {
            Ok(()) => update_reputation_error(*registry, caller, delta) is None && *final(agent)
                == reputation_updated(*old(agent), delta, now),
            Err(e) => update_reputation_error(*registry, caller, delta) == Some(e) && *final(agent)
                == *old(agent),
        },
        old(agent).wf() ==> final(agent).wf(),
{
    if !caller.same(&registry.admin) {
        return Err(RegistryError::Unauthorized);
    }
    if delta < -MAX_REPUTATION_DELTA || delta > MAX_REPUTATION_DELTA {
        return Err(RegistryError::ReputationDeltaTooLarge);
    }
    if delta > 0 {
        agent.challenges_passed = agent.challenges_passed.saturating_add(1);
    } else if delta < 0 {
        agent.challenges_failed = agent.challenges_failed.saturating_add(1);
    }
    agent.adjust_reputation(delta);
    agent.updated_at = now;
    Ok(())
}

/// The score after a run of changes, each added and clamped in turn.
pub open spec fn score_after_all(score: int, deltas: Seq<i32>) -> int
    decreases deltas.len(),
{
    if deltas.len() == 0 {
        score
    } else {
        clamp_score(score_after_all(score, deltas.drop_last()), deltas.last() as int)
    }
}

/// Whatever the signs and sizes of the changes, a score that starts in
/// `[0, 10000]` stays there.
pub proof fn lemma_reputation_stays_bounded(score: u32, deltas: Seq<i32>)
    requires
        score <= MAX_REPUTATION,
    ensures
        0 <= score_after_all(score as int, deltas) <= MAX_REPUTATION,
    decreases deltas.len(),
{
    if deltas.len() > 0 {
        lemma_reputation_stays_bounded(score, deltas.drop_last());
    }
}

} // verus!
