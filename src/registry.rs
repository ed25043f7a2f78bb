use vstd::prelude::*;
use crate::agent::{AgentAccount, INITIAL_REPUTATION, MAX_CAPABILITIES_LEN, MAX_NAME_LEN};
use crate::errors::RegistryError;
use crate::principal::Principal;
use crate::text::{byte_len, check_model_hash, is_model_hash, text_len, utf8_bytes};

verus! {

/// The directory: its admin, the next agent identifier, and the identity
/// token collection, which is set at most once.
#[derive(Clone, Copy, Debug, PartialEq, Eq, Structural)]
pub struct RegistryState {
    pub admin: Principal,
    pub total_agents: u64,
    pub collection: Principal,
    pub collection_initialized: bool,
}

/// A fresh directory run by `admin`, with no agents and no collection.
pub fn initialize(admin: Principal) -> (r: RegistryState)
    ensures
        r.admin == admin,
        r.total_agents == 0,
        r.collection == Principal::zero_spec(),
        !r.collection_initialized,
{
    RegistryState {
        admin,
        total_agents: 0,
        collection: Principal::zero(),
        collection_initialized: false,
    }
}

/// Records the identity token collection. Only the admin may, and only once.
pub fn create_collection(registry: &mut RegistryState, caller: Principal, collection: Principal) -> (r:
    Result<(), RegistryError>)
    ensures
        caller != old(registry).admin ==> r == Err::<(), RegistryError>(RegistryError::Unauthorized),
        caller == old(registry).admin && old(registry).collection_initialized ==> r == Err::<
            (),
            RegistryError,
        >(RegistryError::CollectionAlreadyInitialized),
        r is Err ==> *final(registry) == *old(registry),
        caller == old(registry).admin && !old(registry).collection_initialized ==> r is Ok
            && *final(registry) == (RegistryState {
            collection,
            collection_initialized: true,
            ..*old(registry)
        }),
{
    if !caller.same(&registry.admin) {
        return Err(RegistryError::Unauthorized);
    }
    if registry.collection_initialized {
        return Err(RegistryError::CollectionAlreadyInitialized);
    }
    registry.collection = collection;
    registry.collection_initialized = true;
    Ok(())
}

/// The failure, if any, of registering an agent with these fields.
pub open spec fn register_error(
    registry: RegistryState,
    name: Seq<char>,
    model_hash: Seq<char>,
    capabilities: Seq<char>,
) -> Option<RegistryError> {
    if !registry.collection_initialized {
        Some(RegistryError::CollectionNotInitialized)
    } else if byte_len(name) > MAX_NAME_LEN {
        Some(RegistryError::NameTooLong)
    } else if !is_model_hash(utf8_bytes(model_hash)) {
        Some(RegistryError::InvalidModelHash)
    } else if byte_len(capabilities) > MAX_CAPABILITIES_LEN {
        Some(RegistryError::CapabilitiesTooLong)
    } else if registry.total_agents == u64::MAX {
        Some(RegistryError::RegistryFull)
    } else {
        None
    }
}

/// Registers an agent under the next identifier, which this consumes. The
/// record starts at reputation 5000, unverified, with no challenges.
pub fn register_agent(
    registry: &mut RegistryState,
    owner: Principal,
    name: String,
    model_hash: String,
    capabilities: String,
    nft_mint: Principal,
    now: i64,
) -> (r: Result<AgentAccount, RegistryError>)
    ensures
        match r {
            Ok(a) => {
                &&& register_error(*old(registry), name@, model_hash@, capabilities@) is None
                &&& *final(registry) == (RegistryState {
                    total_agents: (old(registry).total_agents + 1) as u64,
                    ..*old(registry)
                })
                &&& a.agent_id == old(registry).total_agents
                &&& a.owner == owner
                &&& a.name@ == name@
                &&& a.model_hash@ == model_hash@
                &&& a.capabilities@ == capabilities@
                &&& a.reputation_score == INITIAL_REPUTATION
                &&& a.challenges_passed == 0
                &&& a.challenges_failed == 0
                &&& !a.verified
                &&& a.created_at == now
                &&& a.updated_at == now
                &&& a.nft_mint == nft_mint
                &&& a.wf()
            },
            Err(e) => register_error(*old(registry), name@, model_hash@, capabilities@) == Some(e)
                && *final(registry) == *old(registry),
        },
{
    if !registry.collection_initialized {
        return Err(RegistryError::CollectionNotInitialized);
    }
    if text_len(&name) > MAX_NAME_LEN {
        return Err(RegistryError::NameTooLong);
    }
    if !check_model_hash(&model_hash) {
        return Err(RegistryError::InvalidModelHash);
    }
    if text_len(&capabilities) > MAX_CAPABILITIES_LEN {
        return Err(RegistryError::CapabilitiesTooLong);
    }
    let agent_id = registry.total_agents;
    let next = match agent_id.checked_add(1) {
        Some(n) => n,
        None => {
            return Err(RegistryError::RegistryFull);
        },
    };
    registry.total_agents = next;
    Ok(
        AgentAccount {
            agent_id,
            owner,
            name,
            model_hash,
            capabilities,
            reputation_score: INITIAL_REPUTATION,
            challenges_passed: 0,
            challenges_failed: 0,
            verified: false,
            created_at: now,
            updated_at: now,
            nft_mint,
        },
    )
}

} // verus!
